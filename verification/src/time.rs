//! Timestamps: nanoseconds since the epoch, and their human-readable
//! ISO-8601 textual form with sub-second precision and an explicit UTC
//! offset.

use crate::text::{pad2_rep, pad4_rep, pad9_rep, push_pad2, push_pad4, push_pad9};
use vstd::prelude::*;
use vstd::string::StringExecFns;

verus! {

pub const NANOS_PER_SECOND: u64 = 1_000_000_000;

pub const NANOS_PER_DAY: u64 = 86_400_000_000_000;

pub const SECONDS_PER_DAY: u64 = 86_400;

/// Gregorian leap-year rule.
pub open spec fn is_leap_year(y: int) -> bool {
    y % 4 == 0 && (y % 100 != 0 || y % 400 == 0)
}

/// Number of days in a calendar year.
pub open spec fn days_in_year(y: int) -> int {
    if is_leap_year(y) {
        366
    } else {
        365
    }
}

/// Number of days in a calendar month (1 through 12).
pub open spec fn days_in_month(y: int, m: int) -> int {
    if m == 2 {
        if is_leap_year(y) {
            29
        } else {
            28
        }
    } else if m == 4 || m == 6 || m == 9 || m == 11 {
        30
    } else {
        31
    }
}

/// Days taken by the months strictly before `m` in year `y`.
pub open spec fn months_before(y: int, m: int) -> int
    decreases m,
{
    if m <= 1 {
        0
    } else {
        months_before(y, m - 1) + days_in_month(y, m - 1)
    }
}

/// Walk forward one year at a time, consuming whole years out of `rem`.
pub open spec fn year_walk(y: int, rem: int) -> (int, int)
    decreases rem,
{
    if rem < days_in_year(y) {
        (y, rem)
    } else {
        year_walk(y + 1, rem - days_in_year(y))
    }
}

/// Walk forward one month at a time, consuming whole months out of `rem`.
pub open spec fn month_walk(y: int, m: int, rem: int) -> (int, int)
    decreases 12 - m,
{
    if m >= 12 || rem < days_in_month(y, m) {
        (m, rem)
    } else {
        month_walk(y, m + 1, rem - days_in_month(y, m))
    }
}

/// The calendar date reached `days` whole days after the epoch.
pub open spec fn civil_date(days: int) -> (int, int, int) {
    let (y, rem) = year_walk(1970, days);
    let (m, rem2) = month_walk(y, 1, rem);
    (y, m, rem2 + 1)
}

/// The twelve months of a year account for exactly its days.
proof fn lemma_year_months(y: int)
    ensures
        months_before(y, 13) == days_in_year(y),
{
    reveal_with_fuel(months_before, 13);
}

/// Leap-year test.
pub fn leap_year(y: u64) -> (r: bool)
    ensures
        r == is_leap_year(y as int),
{
    y % 4 == 0 && (y % 100 != 0 || y % 400 == 0)
}

/// Length of a calendar year in days.
pub fn year_length(y: u64) -> (r: u64)
    ensures
        r == days_in_year(y as int),
        365 <= r <= 366,
{
    if leap_year(y) {
        366
    } else {
        365
    }
}

/// Length of a calendar month in days.
pub fn month_length(y: u64, m: u64) -> (r: u64)
    ensures
        r == days_in_month(y as int, m as int),
        28 <= r <= 31,
{
    if m == 2 {
        if leap_year(y) {
            29
        } else {
            28
        }
    } else if m == 4 || m == 6 || m == 9 || m == 11 {
        30
    } else {
        31
    }
}

/// Convert a day count since the epoch to a calendar date.
pub fn civil_from_days(days: u64) -> (r: (u64, u64, u64))
    ensures
        ({
            let (y, m, d) = civil_date(days as int);
            r.0 == y && r.1 == m && r.2 == d
        }),
        1970 <= r.0,
        1 <= r.1 <= 12,
        1 <= r.2 <= 31,
        (r.0 - 1970) * 365 <= days,
{
    let mut y: u64 = 1970;
    let mut rem: u64 = days;
    while rem >= year_length(y)
        invariant
            1970 <= y,
            year_walk(1970, days as int) == year_walk(y as int, rem as int),
            (y - 1970) * 365 <= days - rem,
            rem <= days,
        decreases rem,
    {
        let len = year_length(y);
        rem = rem - len;
        y = y + 1;
    }
    let ghost rem_y: int = rem as int;
    proof {
        assert(year_walk(y as int, rem as int) == (y as int, rem as int));
    }
    let mut m: u64 = 1;
    while rem >= month_length(y, m)
        invariant
            1 <= m <= 12,
            months_before(y as int, m as int) + rem == rem_y,
            rem_y < days_in_year(y as int),
            month_walk(y as int, 1, rem_y) == month_walk(y as int, m as int, rem as int),
        decreases 12 - m,
    {
        proof {
            if m == 12 {
                lemma_year_months(y as int);
                assert(false);
            }
        }
        let len = month_length(y, m);
        rem = rem - len;
        m = m + 1;
    }
    (y, m, rem + 1)
}

/// The ISO-8601 text of a nanosecond timestamp: calendar date, time of day
/// to nanosecond precision, and an explicit UTC offset.
pub open spec fn timestamp_rep(nanos: int) -> Seq<char> {
    let days = nanos / (NANOS_PER_DAY as int);
    let in_day = nanos % (NANOS_PER_DAY as int);
    let secs = in_day / (NANOS_PER_SECOND as int);
    let subsec = in_day % (NANOS_PER_SECOND as int);
    let date = civil_date(days);
    pad4_rep(date.0) + "-"@ + pad2_rep(date.1) + "-"@ + pad2_rep(date.2) + "T"@ + pad2_rep(
        secs / 3600,
    ) + ":"@ + pad2_rep(secs / 60 % 60) + ":"@ + pad2_rep(secs % 60) + "."@ + pad9_rep(subsec)
        + "+00:00"@
}

/// Render a nanosecond timestamp as ISO-8601 text in UTC.
pub fn format_timestamp(nanos: u64) -> (r: String)
    ensures
        r@ == timestamp_rep(nanos as int),
{
    let days = nanos / NANOS_PER_DAY;
    let in_day = nanos % NANOS_PER_DAY;
    let secs = in_day / NANOS_PER_SECOND;
    let subsec = in_day % NANOS_PER_SECOND;
    proof {
        assert(days <= 213503) by (nonlinear_arith)
            requires
                days == nanos / 86_400_000_000_000,
                nanos <= 0xffff_ffff_ffff_ffff,
        ;
        assert(secs < 86400) by (nonlinear_arith)
            requires
                secs == in_day / 1_000_000_000,
                in_day < 86_400_000_000_000,
        ;
    }
    let date = civil_from_days(days);
    let hh = secs / 3600;
    let mm = secs / 60 % 60;
    let ss = secs % 60;
    let mut s = String::new();
    push_pad4(&mut s, date.0);
    s.append("-");
    push_pad2(&mut s, date.1);
    s.append("-");
    push_pad2(&mut s, date.2);
    s.append("T");
    push_pad2(&mut s, hh);
    s.append(":");
    push_pad2(&mut s, mm);
    s.append(":");
    push_pad2(&mut s, ss);
    s.append(".");
    push_pad9(&mut s, subsec);
    s.append("+00:00");
    proof {
        assert(s@ =~= timestamp_rep(nanos as int));
    }
    s
}

} // verus!
