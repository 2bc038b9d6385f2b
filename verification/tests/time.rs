use chrono::{TimeZone, Utc};
use rustodo::time::{MAX_SECS, MIN_SECS};
use rustodo::{parse_date, Timestamp, UtcOffset, Zone};

fn zone(name: &str) -> Zone {
    Zone::named(name).unwrap()
}


#[test]
fn timestamp_bounds_are_the_years_one_to_9999() {
    assert_eq!(MIN_SECS, Utc.with_ymd_and_hms(1, 1, 1, 0, 0, 0).unwrap().timestamp());
    assert_eq!(MAX_SECS, Utc.with_ymd_and_hms(9999, 12, 30, 23, 59, 59).unwrap().timestamp());
    assert!(Timestamp::from_secs(MIN_SECS).is_some());
    assert!(Timestamp::from_secs(MAX_SECS).is_some());
    assert!(Timestamp::from_secs(MIN_SECS - 1).is_none());
    assert!(Timestamp::from_secs(MAX_SECS + 1).is_none());
    assert!(Timestamp::from_secs(i64::MIN).is_none());
    assert!(Timestamp::from_secs(i64::MAX).is_none());
    assert_eq!(Timestamp::from_secs(0).unwrap().secs(), 0);
    assert_eq!(Timestamp::from_secs(-5).unwrap().secs(), -5);
}

#[test]
fn offset_is_whole_minutes_and_less_than_a_day() {
    assert_eq!(UtcOffset::utc().secs(), 0);
    assert_eq!(UtcOffset::from_secs(32_400).unwrap().secs(), 32_400);
    assert_eq!(UtcOffset::from_secs(-12_600).unwrap().secs(), -12_600);
    assert_eq!(UtcOffset::from_secs(86_340).unwrap().secs(), 86_340);
    assert_eq!(UtcOffset::from_secs(-86_340).unwrap().secs(), -86_340);
    assert!(UtcOffset::from_secs(86_400).is_none());
    assert!(UtcOffset::from_secs(-86_400).is_none());
    assert!(UtcOffset::from_secs(i32::MIN).is_none());
    assert!(UtcOffset::from_secs(i32::MAX).is_none());
    assert!(UtcOffset::from_secs(1).is_none());
    assert!(UtcOffset::from_secs(-1).is_none());
    assert!(UtcOffset::from_secs(33_539).is_none());
    assert!(UtcOffset::from_secs(-59).is_none());
    assert!(UtcOffset::from_secs(86_399).is_none());
}

#[test]
fn text_form_has_date_time_and_offset() {
    let t = Timestamp::from_secs(1_704_067_199).unwrap();
    assert_eq!(t.to_rfc3339(UtcOffset::utc()), "2023-12-31T23:59:59+00:00");
    let tokyo = UtcOffset::from_secs(9 * 3600).unwrap();
    assert_eq!(t.to_rfc3339(tokyo), "2024-01-01T08:59:59+09:00");
    let st_johns = UtcOffset::from_secs(-(3 * 3600 + 1800)).unwrap();
    assert_eq!(t.to_rfc3339(st_johns), "2023-12-31T20:29:59-03:30");
    let epoch = Timestamp::from_secs(0).unwrap();
    assert_eq!(epoch.to_rfc3339(UtcOffset::utc()), "1970-01-01T00:00:00+00:00");
}

#[test]
fn text_form_reads_back() {
    assert_eq!(
        Timestamp::parse_rfc3339("2023-12-31T23:59:59+00:00"),
        Timestamp::from_secs(1_704_067_199)
    );
    assert_eq!(
        Timestamp::parse_rfc3339("2024-01-01T08:59:59+09:00"),
        Timestamp::from_secs(1_704_067_199)
    );
    assert_eq!(Timestamp::parse_rfc3339("2023-12-31T23:59:59Z"), Timestamp::from_secs(1_704_067_199));
    assert_eq!(
        Timestamp::parse_rfc3339("2023-12-31T23:59:59.750+00:00"),
        Timestamp::from_secs(1_704_067_199)
    );
}

#[test]
fn what_is_no_timestamp_reads_as_none() {
    assert_eq!(Timestamp::parse_rfc3339(""), None);
    assert_eq!(Timestamp::parse_rfc3339("2023-12-31"), None);
    assert_eq!(Timestamp::parse_rfc3339("2023-12-31T23:59:59"), None);
    assert_eq!(Timestamp::parse_rfc3339("2023/12/31 23:59:59"), None);
    assert_eq!(Timestamp::parse_rfc3339("2023-13-31T23:59:59+00:00"), None);
    assert_eq!(Timestamp::parse_rfc3339("1704067199"), None);
    // a year that chrono reads and no task can carry
    assert_eq!(Timestamp::parse_rfc3339("9999-12-31T23:59:59+00:00"), None);
    assert_eq!(Timestamp::parse_rfc3339("0000-06-01T00:00:00+00:00"), None);
}

#[test]
fn round_trip_is_exact_at_whole_minute_offsets() {
    let instants = [
        MIN_SECS,
        MIN_SECS + 1,
        -62_000_000_000,
        -2_208_988_800,
        -1,
        0,
        1,
        951_782_400,
        1_704_067_199,
        4_102_444_800,
        MAX_SECS - 1,
        MAX_SECS,
    ];
    let offsets = [-86_340, -43_200, -12_600, -60, 0, 60, 1_800, 20_700, 32_400, 50_400, 86_340];
    for secs in instants {
        for off in offsets {
            let t = Timestamp::from_secs(secs).unwrap();
            let text = t.to_rfc3339(UtcOffset::from_secs(off).unwrap());
            assert_eq!(Timestamp::parse_rfc3339(&text), Some(t), "{} at {}: {}", secs, off, text);
        }
    }
}

#[test]
fn round_trip_holds_across_the_range() {
    let mut state: u64 = 0x9E37_79B9_7F4A_7C15;
    let span = (MAX_SECS - MIN_SECS + 1) as u64;
    for _ in 0..20_000 {
        state = state.wrapping_mul(6_364_136_223_846_793_005).wrapping_add(1_442_695_040_888_963_407);
        let secs = MIN_SECS + ((state >> 11) % span) as i64;
        state = state.wrapping_mul(6_364_136_223_846_793_005).wrapping_add(1_442_695_040_888_963_407);
        let minutes = ((state >> 33) % 2_879) as i32 - 1_439;
        let t = Timestamp::from_secs(secs).unwrap();
        let text = t.to_rfc3339(UtcOffset::from_secs(minutes * 60).unwrap());
        assert_eq!(Timestamp::parse_rfc3339(&text), Some(t), "{} at {}: {}", secs, minutes, text);
    }
}

#[test]
fn an_offset_with_seconds_is_brought_to_the_minute() {
    // before 1888 the clocks of Tokyo stood 9:18:59 ahead of UTC
    let t = Timestamp::from_secs(-2_700_000_000).unwrap();
    let offset = UtcOffset::of_zone(&zone("Asia/Tokyo"), t);
    assert_eq!(offset.secs(), 9 * 3600 + 19 * 60);
    let text = t.to_rfc3339(offset);
    assert!(text.ends_with("+09:19"), "{}", text);
    assert_eq!(Timestamp::parse_rfc3339(&text), Some(t));
    // until 1972 the clocks of Monrovia stood 0:44:30 behind
    let t = Timestamp::from_secs(-500_000_000).unwrap();
    assert_eq!(UtcOffset::of_zone(&zone("Africa/Monrovia"), t).secs(), -45 * 60);
}

#[test]
fn every_zone_offset_reads_back() {
    let names = ["UTC", "Asia/Tokyo", "Europe/Amsterdam", "Africa/Monrovia", "Pacific/Apia",
        "America/New_York", "Asia/Kolkata", "Asia/Kathmandu", "Australia/Lord_Howe"];
    let instants = [MIN_SECS, -5_000_000_000, -2_700_000_000, -1_500_000_000, -500_000_000, 0,
        1_704_067_199, 1_688_169_600, MAX_SECS];
    for name in names {
        for secs in instants {
            let t = Timestamp::from_secs(secs).unwrap();
            let offset = UtcOffset::of_zone(&zone(name), t);
            assert_eq!(offset.secs() % 60, 0);
            assert!(-86_400 < offset.secs() && offset.secs() < 86_400);
            let text = t.to_rfc3339(offset);
            assert_eq!(Timestamp::parse_rfc3339(&text), Some(t), "{} in {}: {}", secs, name, text);
        }
    }
}

#[test]
fn zone_offset_follows_the_zone() {
    let winter = Timestamp::from_secs(1_704_067_199).unwrap();
    let summer = Timestamp::from_secs(1_688_169_600).unwrap();
    assert_eq!(UtcOffset::of_zone(&zone("UTC"), winter).secs(), 0);
    assert_eq!(UtcOffset::of_zone(&zone("Asia/Tokyo"), winter).secs(), 32_400);
    assert_eq!(UtcOffset::of_zone(&zone("America/New_York"), winter).secs(), -18_000);
    assert_eq!(UtcOffset::of_zone(&zone("America/New_York"), summer).secs(), -14_400);
    assert_eq!(UtcOffset::of_zone(&zone("Asia/Kolkata"), summer).secs(), 19_800);
    for tz in [zone("UTC"), zone("Asia/Tokyo"), zone("Europe/Amsterdam"), zone("Pacific/Apia")] {
        for secs in [MIN_SECS, -5_000_000_000, 0, 1_704_067_199, MAX_SECS] {
            let off = UtcOffset::of_zone(&tz, Timestamp::from_secs(secs).unwrap()).secs();
            assert!(-86_400 < off && off < 86_400);
        }
    }
}

#[test]
fn now_is_close_to_the_clock() {
    let before = Utc::now().timestamp();
    let now = Timestamp::now().unwrap().secs();
    let after = Utc::now().timestamp();
    assert!(before <= now && now <= after);
}

#[test]
fn local_text_is_placed_in_the_zone() {
    assert_eq!(parse_date("2023/12/31 23:59:59", &zone("UTC")).ok(), Timestamp::from_secs(1_704_067_199));
    assert_eq!(
        parse_date("2024/01/01 08:59:59", &zone("Asia/Tokyo")).ok(),
        Timestamp::from_secs(1_704_067_199)
    );
    assert_eq!(
        parse_date("2023/12/31 18:59:59", &zone("America/New_York")).ok(),
        Timestamp::from_secs(1_704_067_199)
    );
    assert!(parse_date("2023-12-31 23:59:59", &zone("UTC")).is_err());
    assert!(parse_date("2023/02/30 00:00:00", &zone("UTC")).is_err());
    assert!(parse_date("2023/12/31 24:00:00", &zone("UTC")).is_err());
    assert!(parse_date("2023/12/31", &zone("UTC")).is_err());
    assert!(parse_date("", &zone("UTC")).is_err());
}

#[test]
fn local_time_that_is_skipped_or_doubled_is_refused() {
    // the clocks of New York went from 02:00 to 03:00 on 2023-03-12
    assert!(parse_date("2023/03/12 02:30:00", &zone("America/New_York")).is_err());
    // and showed 01:30 twice on 2023-11-05
    assert!(parse_date("2023/11/05 01:30:00", &zone("America/New_York")).is_err());
    assert!(parse_date("2023/11/05 03:30:00", &zone("America/New_York")).is_ok());
}

#[test]
fn local_time_at_the_edge_of_the_range_is_refused() {
    assert!(parse_date("0001/01/01 12:00:00", &zone("UTC")).is_err());
    assert!(parse_date("9999/12/30 12:00:00", &zone("UTC")).is_err());
    assert!(parse_date("0001/01/02 00:00:00", &zone("UTC")).is_ok());
    assert!(parse_date("9999/12/29 23:59:59", &zone("UTC")).is_ok());
}

#[test]
fn zone_is_known_by_its_name() {
    assert_eq!(zone("UTC").name(), "UTC");
    assert_eq!(zone("Asia/Tokyo").name(), "Asia/Tokyo");
    assert_eq!(zone("Asia/Tokyo").clone(), zone("Asia/Tokyo"));
    assert!(Zone::named("America/New_York").is_some());
    assert!(Zone::named("").is_none());
    assert!(Zone::named("Mars/Olympus_Mons").is_none());
    assert!(Zone::named("asia/tokyo").is_none());
    assert!(Zone::named("+09:00").is_none());
}
