//! A small task tracker: task records, their text forms, and two stores that
//! keep them, one in memory and one in a single SQLite table.

pub mod cli;
pub mod db;
pub mod error;
pub mod memory;
pub mod row;
pub mod text;
pub mod time;
pub mod todo;
pub mod todo_list;

pub use cli::{parse_date, parse_priority, parse_status, Args};
pub use error::{DecodeError, Field, StoreError, ValidationError};
pub use memory::MemoryStore;
pub use row::{SqlValue, StoredRow};
pub use time::{Timestamp, UtcOffset, Zone};
pub use todo_list::TodoList;
pub use todo::{CreateTodo, Priority, Status, Todo, UpdateTodo};
