[package]
name = "rustodo"
version = "0.1.0"
edition = "2021"
publish = false

[dependencies]
anyhow = "1"
chrono = "0.4"
chrono-tz = "*"
clap = { version = "4", features = ["derive"] }
iana-time-zone = "0.1"
rusqlite = "*"

[dev-dependencies]
tempfile = "3"
