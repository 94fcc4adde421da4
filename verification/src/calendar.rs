//! Proleptic Gregorian calendar arithmetic: leap years, month lengths,
//! and the conversion of calendar fields to seconds since the Unix epoch
//! (1970-01-01T00:00:00Z).

use vstd::prelude::*;

verus! {

/// Seconds in one day.
pub const SECONDS_PER_DAY: i64 = 86_400;

/// Conservative lower bound on the day number of any valid date
/// (no year before 1970 subtracts more than 366 days).
pub const MIN_EPOCH_DAYS: i64 = -721_020;

/// Conservative upper bound on the day number of any valid date
/// (no year adds more than 366 days, no month more than 31).
pub const MAX_EPOCH_DAYS: i64 = 2_938_985;

/// A year is a leap year in the proleptic Gregorian calendar when it is
/// divisible by 4, except century years, which must be divisible by 400.
pub open spec fn spec_is_leap_year(y: int) -> bool {
    y % 4 == 0 && (y % 100 != 0 || y % 400 == 0)
}

pub open spec fn spec_days_in_year(y: int) -> int {
    if spec_is_leap_year(y) {
        366
    } else {
        365
    }
}

pub open spec fn spec_days_in_month(y: int, m: int) -> int {
    if m == 2 {
        if spec_is_leap_year(y) {
            29
        } else {
            28
        }
    } else if m == 4 || m == 6 || m == 9 || m == 11 {
        30
    } else {
        31
    }
}

/// A calendar date this library accepts: a four-digit year and an existing
/// day of the proleptic Gregorian calendar.
pub open spec fn spec_is_valid_date(y: int, m: int, d: int) -> bool {
    &&& 0 <= y <= 9999
    &&& 1 <= m <= 12
    &&& 1 <= d <= spec_days_in_month(y, m)
}

/// A time of day with second precision.
pub open spec fn spec_is_valid_time(h: int, mi: int, s: int) -> bool {
    &&& 0 <= h <= 23
    &&& 0 <= mi <= 59
    &&& 0 <= s <= 59
}

/// Days from 1970-01-01 to the first day of year `y`
/// (negative for years before 1970).
pub open spec fn spec_days_to_year(y: int) -> int
    decreases (if y < 1970 { 1970 - y } else { y - 1970 }),
{
    if y == 1970 {
        0
    } else if y < 1970 {
        spec_days_to_year(y + 1) - spec_days_in_year(y)
    } else {
        spec_days_to_year(y - 1) + spec_days_in_year(y - 1)
    }
}

/// Days from the first day of year `y` to the first day of its month `m`.
pub open spec fn spec_days_to_month(y: int, m: int) -> int
    decreases m,
{
    if m <= 1 {
        0
    } else {
        spec_days_to_month(y, m - 1) + spec_days_in_month(y, m - 1)
    }
}

/// Days from 1970-01-01 to the calendar date `y`-`m`-`d`.
pub open spec fn spec_days_from_epoch(y: int, m: int, d: int) -> int {
    spec_days_to_year(y) + spec_days_to_month(y, m) + (d - 1)
}

/// Seconds from 1970-01-01T00:00:00Z to `y`-`m`-`d` `h`:`mi`:`s` UTC.
pub open spec fn spec_epoch_seconds(y: int, m: int, d: int, h: int, mi: int, s: int) -> int {
    spec_days_from_epoch(y, m, d) * SECONDS_PER_DAY + h * 3600 + mi * 60 + s
}

pub fn is_leap_year(y: i64) -> (r: bool)
    requires
        0 <= y <= 9999,
    ensures
        r == spec_is_leap_year(y as int),
{
    y % 4 == 0 && (y % 100 != 0 || y % 400 == 0)
}

pub fn days_in_year(y: i64) -> (r: i64)
    requires
        0 <= y <= 9999,
    ensures
        r == spec_days_in_year(y as int),
{
    if is_leap_year(y) {
        366
    } else {
        365
    }
}

pub fn days_in_month(y: i64, m: i64) -> (r: i64)
    requires
        0 <= y <= 9999,
        1 <= m <= 12,
    ensures
        r == spec_days_in_month(y as int, m as int),
{
    if m == 2 {
        if is_leap_year(y) {
            29
        } else {
            28
        }
    } else if m == 4 || m == 6 || m == 9 || m == 11 {
        30
    } else {
        31
    }
}

/// Count the days from 1970-01-01 to the given date, walking year by year
/// and month by month from the epoch.
pub fn days_from_epoch(y: i64, m: i64, d: i64) -> (r: i64)
    requires
        spec_is_valid_date(y as int, m as int, d as int),
    ensures
        r == spec_days_from_epoch(y as int, m as int, d as int),
        MIN_EPOCH_DAYS <= r <= MAX_EPOCH_DAYS,
{
    let mut days: i64 = 0;
    if y >= 1970 {
        let mut i: i64 = 1970;
        while i < y
            invariant
                1970 <= i <= y,
                y <= 9999,
                days == spec_days_to_year(i as int),
                0 <= days <= 366 * (i - 1970),
            decreases y - i,
        {
            days = days + days_in_year(i);
            i = i + 1;
        }
    } else {
        let mut i: i64 = 1970;
        while i > y
            invariant
                y <= i <= 1970,
                0 <= y,
                days == spec_days_to_year(i as int),
                -366 * (1970 - i) <= days <= 0,
            decreases i - y,
        {
            i = i - 1;
            days = days - days_in_year(i);
        }
    }
    let mut mm: i64 = 1;
    while mm < m
        invariant
            1 <= mm <= m,
            m <= 12,
            0 <= y <= 9999,
            days == spec_days_to_year(y as int) + spec_days_to_month(y as int, mm as int),
            -366 * 1970 <= days <= 366 * 8029 + 31 * (mm - 1),
        decreases m - mm,
    {
        days = days + days_in_month(y, mm);
        mm = mm + 1;
    }
    days + (d - 1)
}

/// Seconds from the Unix epoch to the given calendar fields.
pub fn epoch_seconds(y: i64, m: i64, d: i64, h: i64, mi: i64, s: i64) -> (r: i64)
    requires
        spec_is_valid_date(y as int, m as int, d as int),
        spec_is_valid_time(h as int, mi as int, s as int),
    ensures
        r == spec_epoch_seconds(y as int, m as int, d as int, h as int, mi as int, s as int),
{
    let days: i64 = days_from_epoch(y, m, d);
    days * SECONDS_PER_DAY + h * 3600 + mi * 60 + s
}

} // verus!
