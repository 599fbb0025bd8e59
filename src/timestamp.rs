//! Decoding of timestamp payloads such as `200507112856S`: a local time
//! followed by a marker that fixes the offset from UTC.

use vstd::prelude::*;

use chrono::{Datelike, FixedOffset, NaiveDate, NaiveDateTime, TimeZone, Timelike};

use crate::types::{DsmrError, LocalDateTime, Timestamp};

verus! {

/// The layout of the local time in a timestamp payload: `YYMMDDHHMMSS`.
pub const DATE_FORMAT: &'static str = "%y%m%d%H%M%S";

/// Offset of winter time (marker `W`), in seconds east of UTC.
pub const WINTER_OFFSET: i32 = 3600;

/// Offset of summer time (marker `S`), in seconds east of UTC.
pub const SUMMER_OFFSET: i32 = 7200;

/// The earliest year that a local time can have.
pub const MIN_YEAR: i32 = -262143;

/// The latest year that a local time can have.
pub const MAX_YEAR: i32 = 262142;

pub open spec fn is_leap_year(y: int) -> bool {
    (y % 4 == 0 && y % 100 != 0) || y % 400 == 0
}

pub open spec fn days_in_month(y: int, m: int) -> int {
    if m == 2 {
        if is_leap_year(y) {
            29
        } else {
            28
        }
    } else if m == 4 || m == 6 || m == 9 || m == 11 {
        30
    } else {
        31
    }
}

/// A proleptic Gregorian date and a time of day without leap second, in the
/// range of years that the calendar supports.
pub open spec fn local_valid(t: LocalDateTime) -> bool {
    &&& MIN_YEAR <= t.year <= MAX_YEAR
    &&& 1 <= t.month <= 12
    &&& 1 <= t.day <= days_in_month(t.year as int, t.month as int)
    &&& t.hour < 24
    &&& t.minute < 60
    &&& t.second < 60
}

/// The number of leap years among the years 1 to `y`, counted negatively
/// below year 1.
pub open spec fn leap_years_through(y: int) -> int {
    y / 4 - y / 100 + y / 400
}

/// Days from 1970-01-01 to January 1 of year `y`.
pub open spec fn days_before_year(y: int) -> int {
    365 * (y - 1970) + leap_years_through(y - 1) - leap_years_through(1969)
}

/// Days from January 1 to the first day of month `m` of year `y`.
pub open spec fn days_before_month(y: int, m: int) -> int {
    let common: int = if m <= 1 {
        0
    } else if m == 2 {
        31
    } else if m == 3 {
        59
    } else if m == 4 {
        90
    } else if m == 5 {
        120
    } else if m == 6 {
        151
    } else if m == 7 {
        181
    } else if m == 8 {
        212
    } else if m == 9 {
        243
    } else if m == 10 {
        273
    } else if m == 11 {
        304
    } else {
        334
    };
    if m > 2 && is_leap_year(y) {
        common + 1
    } else {
        common
    }
}

pub open spec fn seconds_of_day(t: LocalDateTime) -> int {
    t.hour * 3600 + t.minute * 60 + t.second
}

/// Seconds from 1970-01-01T00:00:00 to `t`, both read on the same clock.
pub open spec fn local_seconds(t: LocalDateTime) -> int {
    (days_before_year(t.year as int) + days_before_month(t.year as int, t.month as int) + t.day - 1)
        * 86400 + seconds_of_day(t)
}

/// `t` at `utc_offset` lies before the first instant of the calendar.
pub open spec fn before_earliest_instant(t: LocalDateTime, utc_offset: int) -> bool {
    t.year == MIN_YEAR && t.month == 1 && t.day == 1 && seconds_of_day(t) < utc_offset
}

impl Timestamp {
    /// A valid local time at a positive offset below one day, with the
    /// instant that it denotes.
    pub open spec fn wf(&self) -> bool {
        &&& local_valid(self.local)
        &&& 0 < self.utc_offset < 86400
        &&& !before_earliest_instant(self.local, self.utc_offset as int)
        &&& self.unix_seconds == local_seconds(self.local) - self.utc_offset
    }
}

/// The offset from UTC that a timezone marker stands for.
pub open spec fn offset_for_marker(c: char) -> Option<i32> {
    if c == 'W' {
        Some(WINTER_OFFSET)
    } else if c == 'S' {
        Some(SUMMER_OFFSET)
    } else {
        None
    }
}

pub open spec fn local_of_fields(f: (i32, u32, u32, u32, u32, u32)) -> LocalDateTime {
    LocalDateTime { year: f.0, month: f.1, day: f.2, hour: f.3, minute: f.4, second: f.5 }
}

pub open spec fn local_of(f: Option<(i32, u32, u32, u32, u32, u32)>) -> Option<LocalDateTime> {
    match f {
        Some(t) => Some(local_of_fields(t)),
        None => None,
    }
}

/// The local time, as year, month, day, hour, minute and second, that
/// `text` denotes under the strftime-style `fmt`; `None` where it does not
/// match.
pub uninterp spec fn naive_parse(text: Seq<char>, fmt: Seq<char>) -> Option<
    (i32, u32, u32, u32, u32, u32),
>;

/// What a parsed local time at `utc_offset` gives: `InvalidTimestampFormat`
/// where there was none, `AmbiguousLocalTime` where it cannot be anchored,
/// else the timestamp with its instant.
pub open spec fn anchored(local: Option<LocalDateTime>, utc_offset: i32) -> Result<
    Timestamp,
    DsmrError,
> {
    match local {
        None => Err(DsmrError::InvalidTimestampFormat),
        Some(t) => if before_earliest_instant(t, utc_offset as int) {
            Err(DsmrError::AmbiguousLocalTime)
        } else {
            Ok(
                Timestamp {
                    local: t,
                    utc_offset,
                    unix_seconds: (local_seconds(t) - utc_offset) as i64,
                },
            )
        },
    }
}

/// What a timestamp payload decodes to: its last character selects the
/// offset, the characters before it are the local time under `fmt`.
pub open spec fn timestamp_of(date: Seq<char>, fmt: Seq<char>) -> Result<Timestamp, DsmrError> {
    if date.len() == 0 {
        Err(DsmrError::InvalidTimezoneMarker)
    } else {
        match offset_for_marker(date.last()) {
            None => Err(DsmrError::InvalidTimezoneMarker),
            Some(off) => anchored(local_of(naive_parse(date.drop_last(), fmt)), off),
        }
    }
}

/// Relies on chrono's `NaiveDateTime::parse_from_str`, which depends on the
/// text and the format alone; a `NaiveDateTime` is a valid date of chrono's
/// range and its `second()` is below 60 (a leap second lives in the
/// nanoseconds, which are not kept).
#[verifier::external_body]
fn parse_local(text: &str, fmt: &str) -> (r: Option<(i32, u32, u32, u32, u32, u32)>)
    ensures
        r == naive_parse(text@, fmt@),
        r matches Some(f) ==> local_valid(local_of_fields(f)),
{
    match NaiveDateTime::parse_from_str(text, fmt) {
        Ok(d) => Some((d.year(), d.month(), d.day(), d.hour(), d.minute(), d.second())),
        Err(_) => None,
    }
}

/// Relies on chrono's `FixedOffset::from_local_datetime`, which subtracts the
/// offset from the local time and fails only below the first day of the
/// calendar, and on `DateTime::timestamp`, which counts the non-leap seconds
/// since the Unix epoch.
#[verifier::external_body]
fn unix_seconds_at(local: &LocalDateTime, utc_offset: i32) -> (r: i64)
    requires
        local_valid(*local),
        0 < utc_offset < 86400,
        !before_earliest_instant(*local, utc_offset as int),
    ensures
        r == local_seconds(*local) - utc_offset,
{
    let date = NaiveDate::from_ymd_opt(local.year, local.month, local.day).unwrap();
    let naive = date.and_hms_opt(local.hour, local.minute, local.second).unwrap();
    let offset = FixedOffset::east_opt(utc_offset).unwrap();
    offset.from_local_datetime(&naive).unwrap().timestamp()
}

/// Anchors a parsed local time at a fixed offset from UTC.
pub fn anchor_local_time(local: Option<LocalDateTime>, utc_offset: i32) -> (r: Result<
    Timestamp,
    DsmrError,
>)
    requires
        local matches Some(t) ==> local_valid(t),
        0 < utc_offset < 86400,
    ensures
        r == anchored(local, utc_offset),
        r matches Ok(t) ==> t.wf(),
{
    match local {
        None => Err(DsmrError::InvalidTimestampFormat),
        Some(t) => {
            if t.year == MIN_YEAR && t.month == 1 && t.day == 1 && (t.hour as i32) * 3600 + (
            t.minute as i32) * 60 + (t.second as i32) < utc_offset {
                Err(DsmrError::AmbiguousLocalTime)
            } else {
                let unix_seconds = unix_seconds_at(&t, utc_offset);
                Ok(Timestamp { local: t, utc_offset, unix_seconds })
            }
        },
    }
}

/// Decodes a timestamp payload: the local time under `fmt` followed by `W`
/// (UTC+1) or `S` (UTC+2).
pub fn parse_date(date: &str, fmt: &str) -> (r: Result<Timestamp, DsmrError>)
    ensures
        r == timestamp_of(date@, fmt@),
        r matches Ok(t) ==> t.wf() && (t.utc_offset == WINTER_OFFSET || t.utc_offset
            == SUMMER_OFFSET),
{
    let n = date.unicode_len();
    if n == 0 {
        return Err(DsmrError::InvalidTimezoneMarker);
    }
    let marker = date.get_char(n - 1);
    let utc_offset: i32 = if marker == 'W' {
        WINTER_OFFSET
    } else if marker == 'S' {
        SUMMER_OFFSET
    } else {
        return Err(DsmrError::InvalidTimezoneMarker);
    };
    let fields = parse_local(date.substring_char(0, n - 1), fmt);
    let local = match fields {
        Some(f) => Some(
            LocalDateTime { year: f.0, month: f.1, day: f.2, hour: f.3, minute: f.4, second: f.5 },
        ),
        None => None,
    };
    anchor_local_time(local, utc_offset)
}

} // verus!
