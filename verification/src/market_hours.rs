//! NYSE regular session (09:30–16:00 America/New_York, Monday to Friday) and the New
//! York UTC offset (daylight saving from the second Sunday in March to the first Sunday
//! in November).
use vstd::prelude::*;
use crate::option_symbol::{days_of, spec_days_of};

verus! {

/// Whether `y` is a leap year of the proleptic Gregorian calendar.
pub open spec fn spec_is_leap(y: int) -> bool {
    y % 4 == 0 && (y % 100 != 0 || y % 400 == 0)
}

/// Days in month `m` (1 to 12) of year `y`.
pub open spec fn spec_days_in_month(y: int, m: int) -> int {
    if m == 2 {
        if spec_is_leap(y) { 29 } else { 28 }
    } else if m == 4 || m == 6 || m == 9 || m == 11 {
        30
    } else {
        31
    }
}

/// Whether chrono has the date: a year from -262143 to 262142, a month from 1 to 12 and
/// a day of that month.
pub open spec fn spec_date_exists(year: int, month: int, day: int) -> bool {
    &&& -262143 <= year <= 262142
    &&& 1 <= month <= 12
    &&& 1 <= day <= spec_days_in_month(year, month)
}

/// Day of the week of a calendar date, counted from Monday (0) to Sunday (6); `None`
/// when the date does not exist. 1970-01-01 was a Thursday (3).
pub open spec fn spec_weekday(year: i32, month: u32, day: u32) -> Option<u32> {
    if spec_date_exists(year as int, month as int, day as int) {
        Some(((spec_days_of(year as int, month as int, day as int) + 3) % 7) as u32)
    } else {
        None
    }
}

fn is_leap(y: i64) -> (r: bool)
    requires
        -262143 <= y <= 262142,
    ensures
        r == spec_is_leap(y as int),
{
    let a = y + 400_000;
    proof {
        vstd::arithmetic::div_mod::lemma_mod_multiples_vanish(100000, y as int, 4);
        vstd::arithmetic::div_mod::lemma_mod_multiples_vanish(4000, y as int, 100);
        vstd::arithmetic::div_mod::lemma_mod_multiples_vanish(1000, y as int, 400);
    }
    a % 4 == 0 && (a % 100 != 0 || a % 400 == 0)
}

/// Day of the week of a calendar date (see `spec_weekday`): the date is checked against
/// the Gregorian calendar and chrono's year range, as `NaiveDate::from_ymd_opt` does,
/// and the weekday counted from the day number.
fn weekday_of(year: i32, month: u32, day: u32) -> (r: Option<u32>)
    ensures
        r == spec_weekday(year, month, day),
        r matches Some(w) ==> w < 7,
{
    let y = year as i64;
    if y < -262143 || y > 262142 || month < 1 || month > 12 || day < 1 {
        return None;
    }
    let dim: u32 = if month == 2 {
        if is_leap(y) { 29 } else { 28 }
    } else if month == 4 || month == 6 || month == 9 || month == 11 {
        30
    } else {
        31
    };
    if day > dim {
        return None;
    }
    let days = days_of((year, month, day));
    let shifted = days + 3 + 7 * 20_000_000_000;
    proof {
        vstd::arithmetic::div_mod::lemma_mod_multiples_vanish(20_000_000_000, days + 3, 7);
    }
    Some((shifted % 7) as u32)
}

/// The `n`-th (from 1) day of `month` falling on `weekday` (0 = Monday): its day of the
/// month, when the month's first day and that day exist.
pub open spec fn spec_nth_weekday(year: i32, month: u32, weekday: u32, n: u32) -> Option<u32> {
    match spec_weekday(year, month, 1) {
        Some(first) => {
            let day = 1 + (7 + weekday - first) % 7 + (n - 1) * 7;
            if 0 <= day <= u32::MAX && spec_weekday(year, month, day as u32) is Some {
                Some(day as u32)
            } else {
                None
            }
        },
        None => None,
    }
}

/// The `n`-th `weekday` of `month` (see `spec_nth_weekday`).
pub fn nth_weekday_of_month(year: i32, month: u32, weekday: u32, n: u32) -> (r: Option<u32>)
    requires
        weekday < 7,
        1 <= n <= 613566756,
    ensures
        r == spec_nth_weekday(year, month, weekday, n),
{
    let first = match weekday_of(year, month, 1) {
        Some(w) => w,
        None => return None,
    };
    let offset: u32 = (7 + weekday - first) % 7;
    let day: u32 = 1 + offset + (n - 1) * 7;
    match weekday_of(year, month, day) {
        Some(_) => Some(day),
        None => None,
    }
}

/// New York's offset from UTC in hours on a date: -4 from the second Sunday in March up
/// to (not including) the first Sunday in November, -5 otherwise; `None` when either
/// boundary cannot be found.
pub open spec fn spec_ny_utc_offset(year: i32, month: u32, day: u32) -> Option<i32> {
    match (spec_nth_weekday(year, 3, 6, 2), spec_nth_weekday(year, 11, 6, 1)) {
        (Some(start), Some(end)) => {
            let after_start = month > 3 || (month == 3 && day >= start);
            let before_end = month < 11 || (month == 11 && day < end);
            Some(if after_start && before_end { -4i32 } else { -5i32 })
        },
        _ => None,
    }
}

/// New York's UTC offset on a date (see `spec_ny_utc_offset`).
pub fn ny_utc_offset_hours(year: i32, month: u32, day: u32) -> (r: Option<i32>)
    ensures
        r == spec_ny_utc_offset(year, month, day),
{
    let start = match nth_weekday_of_month(year, 3, 6, 2) {
        Some(d) => d,
        None => return None,
    };
    let end = match nth_weekday_of_month(year, 11, 6, 1) {
        Some(d) => d,
        None => return None,
    };
    let after_start = month > 3 || (month == 3 && day >= start);
    let before_end = month < 11 || (month == 11 && day < end);
    Some(if after_start && before_end { -4 } else { -5 })
}

/// Whether the regular session is open at a New York local time: a weekday (0 =
/// Monday) before Saturday, from 09:30 up to (not including) 16:00.
pub open spec fn spec_session_open(weekday: u32, hour: u32, minute: u32) -> bool {
    weekday < 5 && 9 * 60 + 30 <= hour * 60 + minute < 16 * 60
}

/// Whether the regular session is open (see `spec_session_open`).
pub fn nyse_session_open(weekday: u32, hour: u32, minute: u32) -> (r: bool)
    requires
        hour < 24,
        minute < 60,
    ensures
        r == spec_session_open(weekday, hour, minute),
{
    if weekday >= 5 {
        return false;
    }
    let minutes: u32 = hour * 60 + minute;
    minutes >= 9 * 60 + 30 && minutes < 16 * 60
}

} // verus!
