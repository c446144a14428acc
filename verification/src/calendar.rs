//! Calendar arithmetic on plain integers: a date is a year plus a
//! zero-based day-of-year ordinal. Leap years, month boundaries,
//! weekdays (Gauss's formula for January 1st) and ISO week numbers.

use vstd::prelude::*;

verus! {

/// Gregorian leap-year rule.
pub open spec fn spec_is_leap_year(year: i32) -> bool {
    year % 4 == 0 && (year % 100 != 0 || year % 400 == 0)
}

/// Whether `year` is a Gregorian leap year.
pub fn is_leap_year(year: i32) -> (r: bool)
    requires
        1 <= year <= 9999,
    ensures
        r == spec_is_leap_year(year),
{
    year % 4 == 0 && (year % 100 != 0 || year % 400 == 0)
}

/// Number of days in `year`: 366 in a leap year, else 365.
pub open spec fn spec_days_in_year(year: i32) -> int {
    if spec_is_leap_year(year) {
        366
    } else {
        365
    }
}

/// Number of days in `year`.
pub fn days_in_year(year: i32) -> (r: u16)
    requires
        1 <= year <= 9999,
    ensures
        r == spec_days_in_year(year),
{
    if is_leap_year(year) {
        366
    } else {
        365
    }
}

/// Number of days in month `month` (1-12) of `year`.
pub open spec fn spec_days_in_month(year: i32, month: int) -> int {
    if month == 2 {
        if spec_is_leap_year(year) {
            29
        } else {
            28
        }
    } else if month == 4 || month == 6 || month == 9 || month == 11 {
        30
    } else {
        31
    }
}

/// Number of days in month `month` (1-12) of `year`.
pub fn days_in_month(year: i32, month: u8) -> (r: u8)
    requires
        1 <= year <= 9999,
        1 <= month <= 12,
    ensures
        r == spec_days_in_month(year, month as int),
{
    if month == 2 {
        if is_leap_year(year) { 29 } else { 28 }
    } else if month == 4 || month == 6 || month == 9 || month == 11 {
        30
    } else {
        31
    }
}

/// Zero-based ordinal of the first day of month `month` (1-13; 13 gives
/// the length of the year).
pub open spec fn spec_month_start(year: i32, month: int) -> int
    decreases month,
{
    if month <= 1 {
        0
    } else {
        spec_month_start(year, month - 1) + spec_days_in_month(year, month - 1)
    }
}

/// The twelve months together cover the whole year.
pub proof fn lemma_month_start_full_year(year: i32)
    ensures
        spec_month_start(year, 13) == spec_days_in_year(year),
{
    reveal_with_fuel(spec_month_start, 14);
}

/// Month starts are strictly increasing month over month.
pub proof fn lemma_month_start_monotonic(year: i32, m1: int, m2: int)
    requires
        1 <= m1 <= m2 <= 13,
    ensures
        spec_month_start(year, m1) <= spec_month_start(year, m2),
    decreases m2 - m1,
{
    if m1 < m2 {
        lemma_month_start_monotonic(year, m1, m2 - 1);
    }
}

/// Zero-based ordinal of the first day of `month`.
pub fn month_start(year: i32, month: u8) -> (r: u16)
    requires
        1 <= year <= 9999,
        1 <= month <= 13,
    ensures
        r == spec_month_start(year, month as int),
{
    let mut acc: u16 = 0;
    let mut m: u8 = 1;
    while m < month
        invariant
            1 <= m <= month <= 13,
            1 <= year <= 9999,
            acc == spec_month_start(year, m as int),
            acc <= 366,
        decreases month - m,
    {
        proof {
            lemma_month_start_monotonic(year, m as int + 1, 13);
            lemma_month_start_full_year(year);
        }
        acc = acc + days_in_month(year, m) as u16;
        m = m + 1;
    }
    acc
}

/// The month (1-12) containing the zero-based ordinal `d`: the largest
/// month whose start is at most `d`.
pub open spec fn spec_month_of_ordinal(year: i32, d: int) -> int {
    spec_month_of_ordinal_from(year, d, 1)
}

/// Helper scanning months upward from `m`.
pub open spec fn spec_month_of_ordinal_from(year: i32, d: int, m: int) -> int
    decreases 12 - m,
{
    if m >= 12 {
        12
    } else if d < spec_month_start(year, m + 1) {
        m
    } else {
        spec_month_of_ordinal_from(year, d, m + 1)
    }
}

/// The month and day-of-month (both 1-based) of the zero-based ordinal
/// `ordinal` in `year`.
pub fn month_day_of_ordinal(year: i32, ordinal: u16) -> (r: (u8, u8))
    requires
        1 <= year <= 9999,
        ordinal < spec_days_in_year(year),
    ensures
        r.0 == spec_month_of_ordinal(year, ordinal as int),
        1 <= r.0 <= 12,
        r.1 == ordinal - spec_month_start(year, r.0 as int) + 1,
        1 <= r.1 <= 31,
        spec_month_start(year, r.0 as int) <= ordinal
            < spec_month_start(year, r.0 as int) + spec_days_in_month(year, r.0 as int),
{
    let mut m: u8 = 1;
    let mut start: u16 = 0;
    proof {
        lemma_month_start_full_year(year);
    }
    loop
        invariant
            1 <= year <= 9999,
            1 <= m <= 12,
            ordinal < spec_days_in_year(year),
            start == spec_month_start(year, m as int),
            start <= ordinal,
            spec_month_start(year, 13) == spec_days_in_year(year),
            spec_month_of_ordinal(year, ordinal as int)
                == spec_month_of_ordinal_from(year, ordinal as int, m as int),
        decreases 12 - m,
    {
        let len = days_in_month(year, m);
        let next = start + len as u16;
        if m == 12 || ordinal < next {
            proof {
                if m < 12 {
                    assert(spec_month_of_ordinal_from(year, ordinal as int, m as int)
                        == m as int);
                }
                if m == 12 {
                    lemma_month_start_monotonic(year, m as int + 1, 13);
                }
            }
            return (m, (ordinal - start) as u8 + 1);
        }
        start = next;
        m = m + 1;
    }
}

/// Weekday of January 1st of `year`, with 0 = Monday, by Gauss's
/// formula (whose raw value counts 0 = Sunday).
pub open spec fn spec_jan1_weekday(year: i32) -> int {
    ((1 + 5 * ((year - 1) % 4) + 4 * ((year - 1) % 100) + 6 * ((year - 1) % 400)) % 7 + 6) % 7
}

/// Weekday (0 = Monday .. 6 = Sunday) of the zero-based ordinal `d`.
pub open spec fn spec_weekday_of(year: i32, d: int) -> int {
    (spec_jan1_weekday(year) + d) % 7
}

/// Weekday of January 1st, 0 = Monday.
pub fn jan1_weekday(year: i32) -> (r: u8)
    requires
        1 <= year <= 9999,
    ensures
        r == spec_jan1_weekday(year),
        r <= 6,
{
    let y = year - 1;
    let g = (1 + 5 * (y % 4) + 4 * (y % 100) + 6 * (y % 400)) % 7;
    // shift from 0 = Sunday to 0 = Monday
    ((g + 6) % 7) as u8
}

/// Weekday (0 = Monday .. 6 = Sunday) of ordinal `ordinal` in `year`.
pub fn weekday_of(year: i32, ordinal: u16) -> (r: u8)
    requires
        1 <= year <= 9999,
        ordinal <= 366,
    ensures
        r == spec_weekday_of(year, ordinal as int),
        r <= 6,
{
    let j = jan1_weekday(year);
    ((j as u16 + ordinal) % 7) as u8
}

/// Number of ISO weeks in `year`: 53 when January 1st is a Thursday, or
/// a Wednesday in a leap year; else 52.
pub open spec fn spec_weeks_in_iso_year(year: i32) -> int {
    if spec_jan1_weekday(year) == 3
        || (spec_is_leap_year(year) && spec_jan1_weekday(year) == 2) {
        53
    } else {
        52
    }
}

/// ISO 8601 week number of the zero-based ordinal `d` in `year`:
/// the Thursday rule, with the first and last days of the year possibly
/// belonging to the neighbouring ISO year's week.
pub open spec fn spec_iso_week_of(year: i32, d: int) -> int {
    let w = (d - spec_weekday_of(year, d) + 10) / 7;
    if w < 1 {
        spec_weeks_in_iso_year((year - 1) as i32)
    } else if w > spec_weeks_in_iso_year(year) {
        1
    } else {
        w
    }
}

/// ISO 8601 week number (1-53) of ordinal `ordinal` in `year`.
pub fn iso_week_of(year: i32, ordinal: u16) -> (r: u8)
    requires
        2 <= year <= 9999,
        ordinal < spec_days_in_year(year),
    ensures
        r == spec_iso_week_of(year, ordinal as int),
        1 <= r <= 53,
{
    let dow = weekday_of(year, ordinal);
    // ordinal - dow + 10 >= 0 - 6 + 10 = 4, so the quotient is at least 0
    let w = (ordinal as i32 - dow as i32 + 10) / 7;
    let weeks_this = weeks_in_iso_year(year);
    if w < 1 {
        weeks_in_iso_year(year - 1)
    } else if w > weeks_this as i32 {
        1
    } else {
        w as u8
    }
}

/// Number of ISO weeks in `year`.
pub fn weeks_in_iso_year(year: i32) -> (r: u8)
    requires
        1 <= year <= 9999,
    ensures
        r == spec_weeks_in_iso_year(year),
{
    let j = jan1_weekday(year);
    if j == 3 || (is_leap_year(year) && j == 2) {
        53
    } else {
        52
    }
}

} // verus!
