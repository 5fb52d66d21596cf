//! Calendar dates as plain numbers, with leap years, linear day counts and
//! anniversaries.

use vstd::prelude::*;

verus! {

/// A calendar date in the proleptic Gregorian calendar, held as plain numbers.
/// Years are restricted to 1..=9999 so that all derived arithmetic stays far
/// from any machine limit.
#[derive(Clone, Copy, Debug, PartialEq, Eq, Structural)]
pub struct Date {
    pub year: i32,
    pub month: u8,
    pub day: u8,
}

pub open spec fn spec_is_leap_year(y: int) -> bool {
    (y % 4 == 0 && y % 100 != 0) || y % 400 == 0
}

pub open spec fn spec_days_in_month(y: int, m: int) -> int {
    if m == 2 {
        if spec_is_leap_year(y) {
            29
        } else {
            28
        }
    } else if m == 4 || m == 6 || m == 9 || m == 11 {
        30
    } else {
        31
    }
}

impl Date {
    /// True when the fields name an actual calendar day within the supported range.
    pub open spec fn valid(self) -> bool {
        1 <= self.year <= 9999 && 1 <= self.month <= 12 && 1 <= self.day <= spec_days_in_month(
            self.year as int,
            self.month as int,
        )
    }
}

pub fn is_leap_year(y: i32) -> (r: bool)
    requires
        1 <= y <= 9999,
    ensures
        r == spec_is_leap_year(y as int),
{
    (y % 4 == 0 && y % 100 != 0) || y % 400 == 0
}

pub fn days_in_month(y: i32, m: u8) -> (r: u8)
    requires
        1 <= y <= 9999,
        1 <= m <= 12,
    ensures
        r as int == spec_days_in_month(y as int, m as int),
{
    if m == 2 {
        if is_leap_year(y) {
            29
        } else {
            28
        }
    } else if m == 4 || m == 6 || m == 9 || m == 11 {
        30
    } else {
        31
    }
}

/// Builds a date from plain numbers, accepting exactly the valid calendar days.
pub fn checked_date(year: i64, month: i64, day: i64) -> (r: Option<Date>)
    ensures
        r is Some <==> (1 <= year <= 9999 && 1 <= month <= 12 && 1 <= day <= spec_days_in_month(
            year as int,
            month as int,
        )),
        r is Some ==> r->0 == (Date { year: year as i32, month: month as u8, day: day as u8 })
            && r->0.valid(),
{
    if 1 <= year && year <= 9999 && 1 <= month && month <= 12 {
        let dim = days_in_month(year as i32, month as u8);
        if 1 <= day && day <= dim as i64 {
            Some(Date { year: year as i32, month: month as u8, day: day as u8 })
        } else {
            None
        }
    } else {
        None
    }
}

/// Leap years among the years 1..=y.
pub open spec fn spec_leaps_through(y: int) -> int {
    y / 4 - y / 100 + y / 400
}

/// Days contributed by the whole months of year `y` before month `m`.
pub open spec fn spec_days_before_month(y: int, m: int) -> int
    decreases m,
{
    if m <= 1 {
        0
    } else {
        spec_days_before_month(y, m - 1) + spec_days_in_month(y, m - 1)
    }
}

/// The index of a date in a linear count of days: day 0 is January 1 of year 1.
pub open spec fn spec_day_number(d: Date) -> int {
    365 * (d.year - 1) + spec_leaps_through(d.year - 1) + spec_days_before_month(
        d.year as int,
        d.month as int,
    ) + (d.day - 1)
}

fn days_before_month(y: i32, m: u8) -> (r: u32)
    requires
        1 <= y <= 9999,
        1 <= m <= 12,
    ensures
        r as int == spec_days_before_month(y as int, m as int),
        r <= 366,
{
    let mut acc: u32 = 0;
    let mut k: u8 = 1;
    while k < m
        invariant
            1 <= y <= 9999,
            1 <= k <= m <= 12,
            acc as int == spec_days_before_month(y as int, k as int),
            acc <= 31 * 12,
        decreases m - k,
    {
        acc = acc + days_in_month(y, k) as u32;
        k = k + 1;
        proof {
            lemma_days_before_month_bounds(y as int, k as int);
        }
    }
    proof {
        lemma_days_before_month_bounds(y as int, m as int);
    }
    acc
}

/// The linear day index of a date, as an executable computation.
pub fn day_number(d: Date) -> (r: i64)
    requires
        d.valid(),
    ensures
        r as int == spec_day_number(d),
        0 <= r < 3652100,
{
    let y = d.year as i64;
    proof {
        assert(0 <= (y - 1) / 4 <= 2499 && 0 <= (y - 1) / 100 <= 99 && 0 <= (y - 1) / 400 <= 24
            && (y - 1) / 100 <= (y - 1) / 4) by (nonlinear_arith)
            requires
                1 <= y <= 9999,
        ;
    }
    let leaps = (y - 1) / 4 - (y - 1) / 100 + (y - 1) / 400;
    let before = days_before_month(d.year, d.month) as i64;
    365 * (y - 1) + leaps + before + (d.day as i64 - 1)
}

/// The anniversary of `d` observed in `year`: the same month and day, with the
/// day clamped to the month's length in that year (February 29 falls back to
/// February 28 outside leap years).
pub open spec fn spec_anniversary_on(d: Date, year: int) -> Date {
    Date {
        year: year as i32,
        month: d.month,
        day: if d.day as int <= spec_days_in_month(year, d.month as int) {
            d.day
        } else {
            spec_days_in_month(year, d.month as int) as u8
        },
    }
}

pub proof fn lemma_anniversary_valid(d: Date, year: int)
    requires
        d.valid(),
        1 <= year <= 9999,
    ensures
        spec_anniversary_on(d, year).valid(),
{
}

pub fn anniversary_on(d: Date, year: i32) -> (r: Date)
    requires
        d.valid(),
        1 <= year <= 9999,
    ensures
        r == spec_anniversary_on(d, year as int),
        r.valid(),
{
    let dim = days_in_month(year, d.month);
    Date { year, month: d.month, day: if d.day <= dim { d.day } else { dim } }
}

/// `a` is strictly earlier than `b` in calendar order.
pub open spec fn spec_date_before(a: Date, b: Date) -> bool {
    a.year < b.year || (a.year == b.year && a.month < b.month) || (a.year == b.year && a.month
        == b.month && a.day < b.day)
}

pub fn date_before(a: Date, b: Date) -> (r: bool)
    ensures
        r == spec_date_before(a, b),
{
    a.year < b.year || (a.year == b.year && a.month < b.month) || (a.year == b.year && a.month
        == b.month && a.day < b.day)
}

proof fn lemma_days_before_month_bounds(y: int, m: int)
    requires
        1 <= m <= 13,
    ensures
        31 * (m - 1) >= spec_days_before_month(y, m) >= 28 * (m - 1),
    decreases m,
{
    if m > 1 {
        lemma_days_before_month_bounds(y, m - 1);
    }
}

/// The length of year `y` in days.
pub open spec fn spec_year_len(y: int) -> int {
    if spec_is_leap_year(y) {
        366
    } else {
        365
    }
}

/// The twelve months of year `y` sum to the year's length.
proof fn lemma_year_total(y: int)
    ensures
        spec_days_before_month(y, 12) + spec_days_in_month(y, 12) == spec_year_len(y),
{
    reveal_with_fuel(spec_days_before_month, 13);
}

proof fn lemma_days_before_month_increases(y: int, m1: int, m2: int)
    requires
        1 <= m1 < m2 <= 12,
    ensures
        spec_days_before_month(y, m1) + spec_days_in_month(y, m1) <= spec_days_before_month(y, m2),
    decreases m2 - m1,
{
    if m1 + 1 < m2 {
        lemma_days_before_month_increases(y, m1 + 1, m2);
    }
}

/// Within one year, the day number stays between the year's first day and its last.
proof fn lemma_day_number_in_year_bounds(d: Date)
    requires
        d.valid(),
    ensures
        365 * (d.year - 1) + spec_leaps_through(d.year as int - 1) <= spec_day_number(d) < 365 * (
        d.year - 1) + spec_leaps_through(d.year as int - 1) + spec_year_len(d.year as int),
{
    lemma_days_before_month_bounds(d.year as int, d.month as int);
    lemma_year_total(d.year as int);
    if d.month < 12 {
        lemma_days_before_month_increases(d.year as int, d.month as int, 12);
    }
}

/// Crossing one year boundary adds exactly that year's length to the count.
proof fn lemma_leap_step(y: int)
    requires
        y >= 1,
    ensures
        spec_leaps_through(y) - spec_leaps_through(y - 1) == if spec_is_leap_year(y) {
            1int
        } else {
            0int
        },
{
    assert((y - 1) / 4 + (if y % 4 == 0 {
        1int
    } else {
        0int
    }) == y / 4 && (y - 1) / 100 + (if y % 100 == 0 {
        1int
    } else {
        0int
    }) == y / 100 && (y - 1) / 400 + (if y % 400 == 0 {
        1int
    } else {
        0int
    }) == y / 400 && (y % 400 == 0 ==> y % 100 == 0) && (y % 100 == 0 ==> y % 4 == 0)) by (nonlinear_arith)
        requires
            y >= 1,
    ;
}

proof fn lemma_year_start_increases(y1: int, y2: int)
    requires
        1 <= y1 < y2 <= 9999,
    ensures
        365 * (y1 - 1) + spec_leaps_through(y1 - 1) + spec_year_len(y1) <= 365 * (y2 - 1)
            + spec_leaps_through(y2 - 1),
    decreases y2 - y1,
{
    lemma_leap_step(y1);
    if y1 + 1 < y2 {
        lemma_year_start_increases(y1 + 1, y2);
    }
}

/// Calendar order and the linear day count agree.
pub proof fn lemma_day_number_monotonic(a: Date, b: Date)
    requires
        a.valid(),
        b.valid(),
    ensures
        spec_date_before(a, b) <==> spec_day_number(a) < spec_day_number(b),
        a == b <==> spec_day_number(a) == spec_day_number(b),
{
    lemma_day_number_in_year_bounds(a);
    lemma_day_number_in_year_bounds(b);
    if a.year == b.year {
        if a.month < b.month {
            lemma_days_before_month_increases(a.year as int, a.month as int, b.month as int);
        } else if b.month < a.month {
            lemma_days_before_month_increases(a.year as int, b.month as int, a.month as int);
        }
    } else if a.year < b.year {
        lemma_year_start_increases(a.year as int, b.year as int);
    } else {
        lemma_year_start_increases(b.year as int, a.year as int);
    }
}

} // verus!
