//! Calendar times field by field: which ones exist, how a reply shows them, and the
//! instant they name when read as UTC.

use vstd::prelude::*;
use crate::reminder::Timestamp;
use crate::text::decimal;

verus! {

/// A date and time of day on the proleptic Gregorian calendar.
pub struct LocalTime {
    pub year: i32,
    pub month: u32,
    pub day: u32,
    pub hour: u32,
    pub minute: u32,
    pub second: u32,
    pub nanos: u32,
}

/// Leap years of the Gregorian calendar, year 0 among them.
pub open spec fn is_leap_year(y: int) -> bool {
    (y % 4 == 0 && y % 100 != 0) || y % 400 == 0
}

/// The number of days of month `m` in year `y`.
pub open spec fn days_in_month(y: int, m: int) -> int {
    if m == 2 {
        if is_leap_year(y) {
            29
        } else {
            28
        }
    } else if m == 4 || m == 6 || m == 9 || m == 11 {
        30
    } else {
        31
    }
}

/// The dates and times a chrono `NaiveDateTime` can hold: a year in its range, a day
/// that exists in its month, a time of day, and nanoseconds that run into a leap second
/// only in the last second of a minute.
pub open spec fn valid_local_time(t: LocalTime) -> bool {
    &&& -262143 <= t.year <= 262142
    &&& 1 <= t.month <= 12
    &&& 1 <= t.day <= days_in_month(t.year as int, t.month as int)
    &&& t.hour < 24
    &&& t.minute < 60
    &&& t.second < 60
    &&& (t.nanos < 1_000_000_000 || (t.second == 59 && t.nanos < 2_000_000_000))
}

/// A count of the leap years before `y`; the difference of two counts is the number of
/// leap years in between.
pub open spec fn leap_years_before(y: int) -> int {
    (y - 1) / 4 - (y - 1) / 100 + (y - 1) / 400
}

/// The days of a common year before the first of month `m`.
pub open spec fn common_days_before_month(m: int) -> int {
    if m == 1 {
        0
    } else if m == 2 {
        31
    } else if m == 3 {
        59
    } else if m == 4 {
        90
    } else if m == 5 {
        120
    } else if m == 6 {
        151
    } else if m == 7 {
        181
    } else if m == 8 {
        212
    } else if m == 9 {
        243
    } else if m == 10 {
        273
    } else if m == 11 {
        304
    } else {
        334
    }
}

/// The days of year `y` before the first of month `m`.
pub open spec fn days_before_month(y: int, m: int) -> int {
    if m > 2 && is_leap_year(y) {
        common_days_before_month(m) + 1
    } else {
        common_days_before_month(m)
    }
}

/// Days from 1970-01-01 to the given date (negative before it).
pub open spec fn days_from_epoch(y: int, m: int, d: int) -> int {
    365 * (y - 1970) + leap_years_before(y) - leap_years_before(1970) + days_before_month(y, m) + d - 1
}

/// Seconds from the Unix epoch to the time, read as UTC.
pub open spec fn utc_seconds(t: LocalTime) -> int {
    days_from_epoch(t.year as int, t.month as int, t.day as int) * 86400 + t.hour * 3600 + t.minute * 60
        + t.second
}

/// `n` in decimal, zero-padded on the left to `width` digits.
pub open spec fn zero_padded(n: nat, width: nat) -> Seq<char> {
    let digits = decimal(n);
    if digits.len() < width {
        Seq::new((width - digits.len()) as nat, |i: int| '0') + digits
    } else {
        digits
    }
}

/// A year as chrono's `%Y` writes it: four digits at least, with a sign outside 0 to 9999.
pub open spec fn year_text(y: int) -> Seq<char> {
    if y < 0 {
        "-"@ + zero_padded((-y) as nat, 4)
    } else if y > 9999 {
        "+"@ + zero_padded(y as nat, 4)
    } else {
        zero_padded(y as nat, 4)
    }
}

/// A date and time as `%Y-%m-%d at %H:%M` shows it.
pub open spec fn shown_time(t: LocalTime) -> Seq<char> {
    year_text(t.year as int) + "-"@ + zero_padded(t.month as nat, 2) + "-"@ + zero_padded(t.day as nat, 2)
        + " at "@ + zero_padded(t.hour as nat, 2) + ":"@ + zero_padded(t.minute as nat, 2)
}

/// Formats a date and time with chrono: the fields become a `NaiveDateTime`, which
/// `format("%Y-%m-%d at %H:%M")` writes out. Stated as chrono documents the format: the
/// year with at least four digits and a sign outside 0 to 9999, then month, day, hour and
/// minute with two digits each.
#[verifier::external_body]
pub(crate) fn time_display(t: &LocalTime) -> (r: String)
    requires
        valid_local_time(*t),
    ensures
        r@ == shown_time(*t),
{
    let date = chrono::NaiveDate::from_ymd_opt(t.year, t.month, t.day).unwrap();
    let time = date.and_hms_nano_opt(t.hour, t.minute, t.second, t.nanos).unwrap();
    time.format("%Y-%m-%d at %H:%M").to_string()
}

/// Reads a date and time as UTC with chrono, as `Utc.from_local_datetime(..)` does, and
/// gives the instant's `timestamp()` and `timestamp_subsec_nanos()`. Stated as chrono
/// documents them: the seconds since the Unix epoch, without leap seconds, and the
/// nanoseconds past them.
#[verifier::external_body]
pub(crate) fn utc_instant(t: &LocalTime) -> (r: Timestamp)
    requires
        valid_local_time(*t),
    ensures
        r.secs == utc_seconds(*t),
        r.nanos == t.nanos,
{
    let date = chrono::NaiveDate::from_ymd_opt(t.year, t.month, t.day).unwrap();
    let time = date.and_hms_nano_opt(t.hour, t.minute, t.second, t.nanos).unwrap();
    let utc = chrono::TimeZone::from_local_datetime(&chrono::Utc, &time).unwrap();
    Timestamp { secs: utc.timestamp(), nanos: utc.timestamp_subsec_nanos() }
}

} // verus!
