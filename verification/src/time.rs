//! Instants in whole seconds, and their text form with a UTC offset.
//!
//! The calendar arithmetic is chrono's, the time zones are chrono-tz's and
//! the clock is std's. What this module takes from them on trust is written
//! above each function that calls them.

use vstd::prelude::*;
use chrono::{Offset, TimeZone};

verus! {

/// 0001-01-01T00:00:00Z in seconds since the Unix epoch.
pub const MIN_SECS: i64 = -62_135_596_800;

/// 9999-12-30T23:59:59Z in seconds since the Unix epoch.
pub const MAX_SECS: i64 = 253_402_214_399;

/// The instants a task may carry. Seen at any offset of less than a day,
/// such an instant falls in a year of four digits.
pub open spec fn in_range(secs: int) -> bool {
    MIN_SECS <= secs <= MAX_SECS
}

/// What the offset of a time zone can be: less than a day either way.
pub open spec fn within_a_day(offset: int) -> bool {
    -86_400 < offset < 86_400
}

/// The offsets at which instants are written: whole minutes, less than a day
/// either way. The text of an instant has no place for the seconds of an
/// offset.
pub open spec fn is_offset(offset: int) -> bool {
    within_a_day(offset) && offset % 60 == 0
}

/// An offset brought to whole minutes: the nearest minute, a half counting
/// away from zero, and 23:59 where that would be a full day.
pub open spec fn to_minutes(offset: int) -> int {
    let size = if offset < 0 {
        -offset
    } else {
        offset
    };
    let minutes = if (size + 30) / 60 >= 1440 {
        1439
    } else {
        (size + 30) / 60
    };
    if offset < 0 {
        -(minutes * 60)
    } else {
        minutes * 60
    }
}

/// The text that chrono writes for the instant `secs` as seen `offset`
/// seconds east of UTC.
pub uninterp spec fn rfc3339_text(secs: int, offset: int) -> Seq<char>;

/// The instant that chrono reads from `text`, in whole seconds since the
/// Unix epoch, or `None` where `text` is no RFC 3339 date and time.
pub uninterp spec fn rfc3339_instant(text: Seq<char>) -> Option<int>;

/// The local time that chrono reads from `text` under `format`, counted in
/// seconds as if it were UTC, or `None` where `text` does not fit.
pub uninterp spec fn local_seconds(text: Seq<char>, format: Seq<char>) -> Option<int>;

/// Whether chrono-tz has a time zone of this name.
pub uninterp spec fn zone_known(name: Seq<char>) -> bool;

/// The offset, in seconds east of UTC, that chrono-tz gives the zone of
/// this name at the instant `secs`.
pub uninterp spec fn zone_offset(name: Seq<char>, secs: int) -> int;

/// The instant at which, by chrono-tz, the clocks of the zone of this name
/// show the local time `local` (counted in seconds as if it were UTC), or
/// `None` where they show it twice or never.
pub uninterp spec fn zone_instant(name: Seq<char>, local: int) -> Option<int>;

/// std's moment of the system clock. The library hands it on and never
/// looks inside.
#[verifier::external_type_specification]
#[verifier::external_body]
pub struct ExSystemTime(std::time::SystemTime);

/// chrono's reason for not reading a text. The library only sees that
/// there is one.
#[verifier::external_type_specification]
#[verifier::external_body]
pub struct ExParseError(chrono::ParseError);

/// A point in time, to the second.
#[derive(Debug, Clone, Copy, PartialEq, Eq, Structural)]
pub struct Timestamp {
    secs: i64,
}

/// The difference between local time and UTC at which an instant is
/// written, in seconds east: always a whole number of minutes.
#[derive(Debug, Clone, Copy, PartialEq, Eq, Structural)]
pub struct UtcOffset {
    secs: i32,
}

/// A time zone of the IANA database, held by its name, such as `UTC` or
/// `Asia/Tokyo`. Every zone that can be made is one that chrono-tz has.
#[derive(Debug, PartialEq, Eq)]
pub struct Zone {
    name: String,
}

impl View for Zone {
    type V = Seq<char>;

    closed spec fn view(&self) -> Seq<char> {
        self.name@
    }
}

impl View for Timestamp {
    type V = int;

    closed spec fn view(&self) -> int {
        self.secs as int
    }
}

impl View for UtcOffset {
    type V = int;

    closed spec fn view(&self) -> int {
        self.secs as int
    }
}

/// chrono's `DateTime::to_rfc3339`, on the instant `secs` moved to the fixed
/// offset `offset` by `DateTime::with_timezone`.
///
/// Taken on trust, beside the name of the text: the text is one that
/// `DateTime::parse_from_rfc3339` reads back as the same instant. chrono
/// writes the local date and time in the digits that its reader takes (a
/// year of four digits, which the range of `secs` sees to) and after them
/// the offset in hours and minutes, which is all of an offset of whole
/// minutes; its reader takes the offset from the local time again.
#[verifier::external_body]
fn format_rfc3339(secs: i64, offset: i32) -> (text: String)
    requires
        in_range(secs as int),
        is_offset(offset as int),
    ensures
        text@ == rfc3339_text(secs as int, offset as int),
        rfc3339_instant(text@) == Some(secs as int),
{
    let zone = chrono::FixedOffset::east_opt(offset).unwrap();
    chrono::DateTime::from_timestamp(secs, 0).unwrap().with_timezone(&zone).to_rfc3339()
}

/// chrono's `DateTime::parse_from_rfc3339`, its result reduced to whole
/// seconds by `DateTime::timestamp`.
#[verifier::external_body]
fn read_rfc3339(text: &str) -> (r: Result<i64, chrono::ParseError>)
    ensures
        match r {
            Ok(secs) => rfc3339_instant(text@) == Some(secs as int),
            Err(_) => rfc3339_instant(text@) is None,
        },
{
    chrono::DateTime::parse_from_rfc3339(text).map(|d| d.timestamp())
}

/// chrono's `NaiveDateTime::parse_from_str`, its result counted in seconds
/// as if it were UTC.
#[verifier::external_body]
fn read_local(text: &str, format: &str) -> (r: Result<i64, chrono::ParseError>)
    ensures
        match r {
            Ok(secs) => local_seconds(text@, format@) == Some(secs as int),
            Err(_) => local_seconds(text@, format@) is None,
        },
{
    chrono::NaiveDateTime::parse_from_str(text, format).map(|n| n.and_utc().timestamp())
}

/// chrono-tz's `Tz::from_str`: whether it has a zone of this name.
#[verifier::external_body]
fn zone_exists(name: &str) -> (known: bool)
    ensures
        known == zone_known(name@),
{
    name.parse::<chrono_tz::Tz>().is_ok()
}

/// chrono-tz's `TimeZone::from_local_datetime` for the zone of this name,
/// and chrono's `MappedLocalTime::single`: the instant at which the clocks
/// of the zone show the local time `local`, where there is exactly one.
#[verifier::external_body]
fn resolve_local(name: &str, local: i64) -> (r: Option<i64>)
    requires
        zone_known(name@),
        in_range(local - 86_400),
        in_range(local + 86_400),
    ensures
        match r {
            Some(secs) => zone_instant(name@, local as int) == Some(secs as int),
            None => zone_instant(name@, local as int) is None,
        },
{
    let tz: chrono_tz::Tz = name.parse().unwrap();
    let naive = chrono::DateTime::from_timestamp(local, 0).unwrap().naive_utc();
    tz.from_local_datetime(&naive).single().map(|d| d.timestamp())
}

/// chrono-tz's `TimeZone::offset_from_utc_datetime` for the zone of this
/// name: its offset at the instant `secs`. Taken on trust beside the name:
/// the offset is less than a day, as chrono's `FixedOffset` always is.
#[verifier::external_body]
fn offset_in_zone(name: &str, secs: i64) -> (offset: i32)
    requires
        zone_known(name@),
        in_range(secs as int),
    ensures
        offset == zone_offset(name@, secs as int),
        within_a_day(offset as int),
{
    let tz: chrono_tz::Tz = name.parse().unwrap();
    let naive = chrono::DateTime::from_timestamp(secs, 0).unwrap().naive_utc();
    tz.offset_from_utc_datetime(&naive).fix().local_minus_utc()
}

/// std's `SystemTime::now`: the present moment by the system clock. Two
/// calls may differ.
#[verifier::external_body]
fn system_clock() -> (at: std::time::SystemTime) {
    std::time::SystemTime::now()
}

/// std's `SystemTime::duration_since`, counted from the Unix epoch in whole
/// seconds: `None` where the moment lies before the epoch, or further
/// after it than an `i64` counts.
#[verifier::external_body]
fn seconds_since_epoch(at: std::time::SystemTime) -> (secs: Option<i64>) {
    let since = at.duration_since(std::time::UNIX_EPOCH).ok()?;
    i64::try_from(since.as_secs()).ok()
}

impl Clone for Zone {
    fn clone(&self) -> (r: Zone)
        ensures
            r@ == self@,
    {
        proof {
            use_type_invariant(self);
        }
        Zone { name: self.name.clone() }
    }
}

impl Zone {
    #[verifier::type_invariant]
    spec fn valid(self) -> bool {
        zone_known(self.name@)
    }

    /// The zone of this name, if chrono-tz has one.
    pub fn named(name: &str) -> (r: Option<Zone>)
        ensures
            match r {
                Some(zone) => zone_known(name@) && zone@ == name@,
                None => !zone_known(name@),
            },
    {
        if zone_exists(name) {
            Some(Zone { name: name.to_owned() })
        } else {
            None
        }
    }

    /// The name of the zone.
    pub fn name(&self) -> (name: &str)
        ensures
            name@ == self@,
            zone_known(name@),
    {
        proof {
            use_type_invariant(self);
        }
        self.name.as_str()
    }
}

impl UtcOffset {
    #[verifier::type_invariant]
    spec fn valid(self) -> bool {
        is_offset(self.secs as int)
    }

    /// The offset of `secs` seconds east of UTC, if that is a whole number
    /// of minutes and less than a day.
    pub fn from_secs(secs: i32) -> (r: Option<UtcOffset>)
        ensures
            match r {
                Some(o) => is_offset(secs as int) && o@ == secs,
                None => !is_offset(secs as int),
            },
    {
        if -86_400 < secs && secs < 86_400 {
            let size: i32 = if secs < 0 {
                -secs
            } else {
                secs
            };
            if size % 60 == 0 {
                Some(UtcOffset { secs })
            } else {
                None
            }
        } else {
            None
        }
    }

    /// UTC itself.
    pub fn utc() -> (o: UtcOffset)
        ensures
            o@ == 0,
    {
        UtcOffset { secs: 0 }
    }

    /// Seconds east of UTC.
    pub fn secs(&self) -> (s: i32)
        ensures
            s == self@,
            is_offset(s as int),
    {
        proof {
            use_type_invariant(self);
        }
        self.secs
    }

    /// The offset at which a store in the zone `tz` writes the instant `at`:
    /// the offset that the clocks of `tz` have at that instant, brought to
    /// whole minutes.
    pub fn of_zone(tz: &Zone, at: Timestamp) -> (o: UtcOffset)
        ensures
            o@ == to_minutes(zone_offset(tz@, at@)),
            is_offset(o@),
    {
        let secs: i64 = at.secs();
        let raw: i32 = offset_in_zone(tz.name(), secs);
        let size: i32 = if raw < 0 {
            -raw
        } else {
            raw
        };
        let minutes: i32 = if (size + 30) / 60 >= 1440 {
            1439
        } else {
            (size + 30) / 60
        };
        if raw < 0 {
            UtcOffset { secs: -(minutes * 60) }
        } else {
            UtcOffset { secs: minutes * 60 }
        }
    }
}

impl Timestamp {
    #[verifier::type_invariant]
    spec fn valid(self) -> bool {
        in_range(self.secs as int)
    }

    /// What a text stands for when read as a stored timestamp: the instant
    /// that chrono reads from it, if that is one a task may carry.
    pub open spec fn decoded(text: Seq<char>) -> Option<int> {
        match rfc3339_instant(text) {
            Some(secs) => if in_range(secs) {
                Some(secs)
            } else {
                None
            },
            None => None,
        }
    }

    /// The instant `secs` seconds after the Unix epoch, if a task may carry it.
    pub fn from_secs(secs: i64) -> (r: Option<Timestamp>)
        ensures
            match r {
                Some(t) => in_range(secs as int) && t@ == secs,
                None => !in_range(secs as int),
            },
    {
        if MIN_SECS <= secs && secs <= MAX_SECS {
            Some(Timestamp { secs })
        } else {
            None
        }
    }

    /// Seconds since the Unix epoch.
    pub fn secs(&self) -> (s: i64)
        ensures
            s == self@,
            in_range(s as int),
    {
        proof {
            use_type_invariant(self);
        }
        self.secs
    }

    /// The present moment by the system clock, to the second, or `None`
    /// should the clock show a time that no task may carry: one before
    /// 1970 is among them.
    pub fn now() -> (r: Option<Timestamp>)
        ensures
            r matches Some(t) ==> in_range(t@),
    {
        match seconds_since_epoch(system_clock()) {
            Some(secs) => Timestamp::from_secs(secs),
            None => None,
        }
    }

    /// The text under which this instant is stored: date, time and offset, as
    /// seen at `offset`. It reads back as the same instant.
    pub fn to_rfc3339(&self, offset: UtcOffset) -> (text: String)
        ensures
            text@ == rfc3339_text(self@, offset@),
            Timestamp::decoded(text@) == Some(self@),
    {
        let secs: i64 = self.secs();
        let off: i32 = offset.secs();
        format_rfc3339(secs, off)
    }

    /// The instant that a local time becomes in a zone: the one at which
    /// the clocks of the zone show it. There is none where no local time was
    /// read, where the clocks show it twice or never, and where the local
    /// time or the instant lies within a day of the ends of what a task may
    /// carry.
    pub open spec fn placed(local: Option<int>, zone: Seq<char>) -> Option<int> {
        match local {
            Some(l) => if in_range(l - 86_400) && in_range(l + 86_400) {
                match zone_instant(zone, l) {
                    Some(secs) => if in_range(secs) {
                        Some(secs)
                    } else {
                        None
                    },
                    None => None,
                }
            } else {
                None
            },
            None => None,
        }
    }

    /// Reads a local date and time under `format` and places it in `tz`.
    pub(crate) fn parse_local(text: &str, format: &str, tz: &Zone) -> (r: Option<Timestamp>)
        ensures
            match r {
                Some(t) => Timestamp::placed(local_seconds(text@, format@), tz@) == Some(t@),
                None => Timestamp::placed(local_seconds(text@, format@), tz@) is None,
            },
    {
        match read_local(text, format) {
            Ok(local) => {
                if MIN_SECS + 86_400 <= local && local <= MAX_SECS - 86_400 {
                    match resolve_local(tz.name(), local) {
                        Some(secs) => Timestamp::from_secs(secs),
                        None => None,
                    }
                } else {
                    None
                }
            },
            Err(_) => None,
        }
    }

    /// Reads a stored timestamp back.
    pub fn parse_rfc3339(text: &str) -> (r: Option<Timestamp>)
        ensures
            match r {
                Some(t) => Timestamp::decoded(text@) == Some(t@),
                None => Timestamp::decoded(text@) is None,
            },
    {
        match read_rfc3339(text) {
            Ok(secs) => Timestamp::from_secs(secs),
            Err(_) => None,
        }
    }
}

} // verus!
