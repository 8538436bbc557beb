//! Calendar dates and times as plain integers, with the proleptic Gregorian
//! day count used for billing arithmetic: day differences, one-calendar-month
//! period ends (same day of month, clamped to the last day of the target
//! month), and the hour-boundary test that triggers persistence.

use vstd::prelude::*;

verus! {

/// A calendar date. A meaningful date has `1 <= month <= 12` and
/// `1 <= day <= days_in_month`, but every function here is total over the
/// raw fields.
#[derive(Clone, Copy, PartialEq, Eq, Structural, Debug)]
pub struct Date {
    pub year: u32,
    pub month: u32,
    pub day: u32,
}

/// A wall-clock timestamp with second resolution.
#[derive(Clone, Copy, PartialEq, Eq, Structural, Debug)]
pub struct DateTime {
    pub date: Date,
    pub hour: u32,
    pub minute: u32,
    pub second: u32,
}

pub open spec fn is_leap_year(year: int) -> bool {
    (year % 4 == 0 && year % 100 != 0) || year % 400 == 0
}

pub open spec fn spec_days_in_month(year: int, month: int) -> int {
    if month == 2 {
        if is_leap_year(year) {
            29
        } else {
            28
        }
    } else if month == 4 || month == 6 || month == 9 || month == 11 {
        30
    } else {
        31
    }
}

pub open spec fn spec_days_before_year(year: int) -> int {
    if year <= 0 {
        0
    } else {
        (year - 1) * 365 + (year - 1) / 4 - (year - 1) / 100 + (year - 1) / 400
    }
}

pub open spec fn spec_days_before_month(year: int, month: int) -> int
    decreases month,
{
    if month <= 1 {
        0
    } else {
        spec_days_before_month(year, month - 1) + spec_days_in_month(year, month - 1)
    }
}

/// Day index on the proleptic Gregorian calendar; January 1 of year 1 is day 0.
pub open spec fn day_number(d: Date) -> int {
    spec_days_before_year(d.year as int) + spec_days_before_month(d.year as int, d.month as int)
        + d.day - 1
}

/// Lexicographic order on dates; on meaningful dates this is chronological
/// order.
pub open spec fn date_lt(a: Date, b: Date) -> bool {
    ||| a.year < b.year
    ||| (a.year == b.year && a.month < b.month)
    ||| (a.year == b.year && a.month == b.month && a.day < b.day)
}

/// Two timestamps fall in the same hour bucket: same date and same hour.
pub open spec fn same_hour(a: DateTime, b: DateTime) -> bool {
    a.date == b.date && a.hour == b.hour
}

/// The date one calendar month later: same day of month, clamped to the last
/// day of the target month. `None` exactly when the year counter would
/// overflow.
pub open spec fn spec_next_month(d: Date) -> Option<Date> {
    if d.month >= 12 && d.year == u32::MAX {
        None
    } else {
        let year2 = if d.month >= 12 {
            (d.year + 1) as u32
        } else {
            d.year
        };
        let month2 = if d.month >= 12 {
            1u32
        } else {
            (d.month + 1) as u32
        };
        let last = spec_days_in_month(year2 as int, month2 as int);
        let day2 = if d.day as int <= last {
            d.day as int
        } else {
            last
        };
        Some(Date { year: year2, month: month2, day: day2 as u32 })
    }
}

pub fn days_in_month(year: u32, month: u32) -> (r: u32)
    ensures
        r == spec_days_in_month(year as int, month as int),
        28 <= r <= 31,
{
    if month == 2 {
        let leap: bool = (year % 4 == 0 && year % 100 != 0) || year % 400 == 0;
        if leap {
            29
        } else {
            28
        }
    } else if month == 4 || month == 6 || month == 9 || month == 11 {
        30
    } else {
        31
    }
}

/// A date that exists on the calendar; the year count starts at 1.
pub open spec fn valid_date(d: Date) -> bool {
    &&& 1 <= d.year
    &&& 1 <= d.month <= 12
    &&& 1 <= d.day <= spec_days_in_month(d.year as int, d.month as int)
}

proof fn lemma_div_step(y: int, d: int)
    requires
        y >= 1,
        d >= 1,
    ensures
        y / d - (y - 1) / d == if y % d == 0 {
            1int
        } else {
            0int
        },
{
    vstd::arithmetic::div_mod::lemma_fundamental_div_mod(y, d);
    vstd::arithmetic::div_mod::lemma_mod_division_less_than_divisor(y, d);
    let q = y / d;
    let r = y % d;
    if r == 0 {
        assert((q - 1) * d + (d - 1) == y - 1) by (nonlinear_arith)
            requires
                y == d * q + r,
                r == 0,
        ;
        vstd::arithmetic::div_mod::lemma_fundamental_div_mod_converse(y - 1, d, q - 1, d - 1);
    } else {
        assert(q * d + (r - 1) == y - 1) by (nonlinear_arith)
            requires
                y == d * q + r,
        ;
        vstd::arithmetic::div_mod::lemma_fundamental_div_mod_converse(y - 1, d, q, r - 1);
    }
}

proof fn lemma_divisibility_chain(y: int)
    requires
        y >= 1,
    ensures
        y % 400 == 0 ==> y % 100 == 0,
        y % 100 == 0 ==> y % 4 == 0,
{
    if y % 400 == 0 {
        vstd::arithmetic::div_mod::lemma_fundamental_div_mod(y, 400);
        assert((4 * (y / 400)) * 100 + 0 == y) by (nonlinear_arith)
            requires
                y == 400 * (y / 400),
        ;
        vstd::arithmetic::div_mod::lemma_fundamental_div_mod_converse(y, 100, 4 * (y / 400), 0);
    }
    if y % 100 == 0 {
        vstd::arithmetic::div_mod::lemma_fundamental_div_mod(y, 100);
        assert((25 * (y / 100)) * 4 + 0 == y) by (nonlinear_arith)
            requires
                y == 100 * (y / 100),
        ;
        vstd::arithmetic::div_mod::lemma_fundamental_div_mod_converse(y, 4, 25 * (y / 100), 0);
    }
}

/// Each calendar year advances the day count by its own length.
pub proof fn lemma_days_before_year_step(y: int)
    requires
        y >= 1,
    ensures
        spec_days_before_year(y + 1) == spec_days_before_year(y) + if is_leap_year(y) {
            366int
        } else {
            365int
        },
{
    lemma_div_step(y, 4);
    lemma_div_step(y, 100);
    lemma_div_step(y, 400);
    lemma_divisibility_chain(y);
}

proof fn lemma_days_before_year_monotone(y1: int, y2: int)
    requires
        1 <= y1 <= y2,
    ensures
        spec_days_before_year(y1) <= spec_days_before_year(y2),
    decreases y2 - y1,
{
    if y1 < y2 {
        lemma_days_before_year_step(y2 - 1);
        lemma_days_before_year_monotone(y1, y2 - 1);
    }
}

proof fn lemma_days_before_month_monotone(year: int, m1: int, m2: int)
    requires
        0 <= m1 <= m2,
    ensures
        spec_days_before_month(year, m1) <= spec_days_before_month(year, m2),
    decreases m2 - m1,
{
    if m1 < m2 {
        lemma_days_before_month_monotone(year, m1, m2 - 1);
    }
}

/// The twelve months of a year hold 365 days, or 366 in a leap year.
pub proof fn lemma_days_in_year(y: int)
    ensures
        spec_days_before_month(y, 13) == if is_leap_year(y) {
            366int
        } else {
            365int
        },
{
    assert(spec_days_before_month(y, 1) == 0);
    assert(spec_days_before_month(y, 2) == spec_days_before_month(y, 1) + 31);
    assert(spec_days_before_month(y, 3) == spec_days_before_month(y, 2) + spec_days_in_month(y, 2));
    assert(spec_days_before_month(y, 4) == spec_days_before_month(y, 3) + 31);
    assert(spec_days_before_month(y, 5) == spec_days_before_month(y, 4) + 30);
    assert(spec_days_before_month(y, 6) == spec_days_before_month(y, 5) + 31);
    assert(spec_days_before_month(y, 7) == spec_days_before_month(y, 6) + 30);
    assert(spec_days_before_month(y, 8) == spec_days_before_month(y, 7) + 31);
    assert(spec_days_before_month(y, 9) == spec_days_before_month(y, 8) + 31);
    assert(spec_days_before_month(y, 10) == spec_days_before_month(y, 9) + 30);
    assert(spec_days_before_month(y, 11) == spec_days_before_month(y, 10) + 31);
    assert(spec_days_before_month(y, 12) == spec_days_before_month(y, 11) + 30);
    assert(spec_days_before_month(y, 13) == spec_days_before_month(y, 12) + 31);
}

proof fn lemma_day_number_below_next_year(d: Date)
    requires
        valid_date(d),
    ensures
        day_number(d) < spec_days_before_year(d.year as int + 1),
{
    let y = d.year as int;
    let m = d.month as int;
    assert(spec_days_before_month(y, m + 1) == spec_days_before_month(y, m)
        + spec_days_in_month(y, m));
    lemma_days_before_month_monotone(y, m + 1, 13);
    lemma_days_in_year(y);
    lemma_days_before_year_step(y);
}

proof fn lemma_date_lt_day_number(a: Date, b: Date)
    requires
        valid_date(a),
        valid_date(b),
    ensures
        date_lt(a, b) ==> day_number(a) < day_number(b),
{
    if date_lt(a, b) {
        if a.year == b.year {
            let y = a.year as int;
            if a.month < b.month {
                assert(spec_days_before_month(y, a.month as int + 1) == spec_days_before_month(
                    y,
                    a.month as int,
                ) + spec_days_in_month(y, a.month as int));
                lemma_days_before_month_monotone(y, a.month as int + 1, b.month as int);
            }
        } else {
            lemma_day_number_below_next_year(a);
            lemma_days_before_year_monotone(a.year as int + 1, b.year as int);
            lemma_days_before_month_bounds(b.year as int, b.month as int);
        }
    }
}

/// On calendar dates, the lexicographic order that decides a period rollover
/// agrees with the day count that prices the standing charge.
pub proof fn lemma_date_order_matches_day_number(a: Date, b: Date)
    requires
        valid_date(a),
        valid_date(b),
    ensures
        date_lt(a, b) <==> day_number(a) < day_number(b),
{
    lemma_date_lt_day_number(a, b);
    lemma_date_lt_day_number(b, a);
}

pub proof fn lemma_days_before_month_bounds(year: int, month: int)
    requires
        month >= 0,
    ensures
        0 <= spec_days_before_month(year, month) <= 31 * month,
    decreases month,
{
    if month > 1 {
        lemma_days_before_month_bounds(year, month - 1);
    }
}

/// Every day index lies in `[-1, 2^42)`; the lower end is reached only by the
/// all-zero raw date.
pub proof fn lemma_day_number_bounds(d: Date)
    ensures
        -1 <= day_number(d) < 0x40000000000,
{
    lemma_days_before_month_bounds(d.year as int, d.month as int);
    let y = d.year as int;
    if y > 0 {
        assert(0 <= (y - 1) / 4 <= y - 1);
        assert(0 <= (y - 1) / 100 <= y - 1);
        assert(0 <= (y - 1) / 400 <= y - 1);
    }
}

fn days_before_month(year: u32, month: u32) -> (r: u64)
    ensures
        r == spec_days_before_month(year as int, month as int),
        r <= 31 * (month as int),
{
    let mut m: u32 = 1;
    let mut acc: u64 = 0;
    while m < month
        invariant
            1 <= m,
            m <= month || m == 1,
            acc == spec_days_before_month(year as int, m as int),
            acc <= 31 * (m as int - 1),
        decreases month as int - m as int,
    {
        acc = acc + days_in_month(year, m) as u64;
        m = m + 1;
    }
    acc
}

/// The day index of a date, as executable arithmetic.
pub fn day_number_of(d: &Date) -> (r: i64)
    ensures
        r == day_number(*d),
        -1 <= r < 0x40000000000,
{
    proof {
        lemma_day_number_bounds(*d);
    }
    let before_year: u64 = if d.year == 0 {
        0
    } else {
        let y: u64 = (d.year - 1) as u64;
        y * 365 + y / 4 - y / 100 + y / 400
    };
    let before_month: u64 = days_before_month(d.year, d.month);
    before_year as i64 + before_month as i64 + d.day as i64 - 1
}

/// Signed number of days from `a` to `b`.
pub fn days_between(a: &Date, b: &Date) -> (r: i64)
    ensures
        r == day_number(*b) - day_number(*a),
        -0x40000000001 <= r <= 0x40000000001,
{
    let na: i64 = day_number_of(a);
    let nb: i64 = day_number_of(b);
    nb - na
}

pub fn date_before(a: &Date, b: &Date) -> (r: bool)
    ensures
        r == date_lt(*a, *b),
{
    if a.year != b.year {
        a.year < b.year
    } else if a.month != b.month {
        a.month < b.month
    } else {
        a.day < b.day
    }
}

/// The hour-boundary test between the previously observed timestamp and a new
/// one: the boundary is crossed when either the date or the hour differs.
pub fn crosses_hour_boundary(prev: &DateTime, next: &DateTime) -> (r: bool)
    ensures
        r == !same_hour(*prev, *next),
{
    next.date.year != prev.date.year || next.date.month != prev.date.month || next.date.day
        != prev.date.day || next.hour != prev.hour
}

pub fn next_month(d: &Date) -> (r: Option<Date>)
    ensures
        r == spec_next_month(*d),
{
    if d.month >= 12 && d.year == u32::MAX {
        return None;
    }
    let year2: u32 = if d.month >= 12 {
        d.year + 1
    } else {
        d.year
    };
    let month2: u32 = if d.month >= 12 {
        1
    } else {
        d.month + 1
    };
    let last: u32 = days_in_month(year2, month2);
    let day2: u32 = if d.day <= last {
        d.day
    } else {
        last
    };
    Some(Date { year: year2, month: month2, day: day2 })
}

} // verus!
