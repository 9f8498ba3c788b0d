//! Proleptic Gregorian calendar rules shared by the time scales.

use vstd::prelude::*;

verus! {

/// Gregorian leap-year rule: every fourth year, except centuries not divisible by 400.
pub open spec fn spec_is_leap_year(year: int) -> bool {
    (year % 4 == 0 && year % 100 != 0) || year % 400 == 0
}

/// Divisibility does not depend on the sign of the dividend.
proof fn lemma_divides_negation(a: int, d: int)
    requires
        d > 0,
    ensures
        (a % d == 0) <==> ((-a) % d == 0),
{
    vstd::arithmetic::div_mod::lemma_fundamental_div_mod(a, d);
    vstd::arithmetic::div_mod::lemma_fundamental_div_mod(-a, d);
    if a % d == 0 {
        let q = a / d;
        assert(-a == d * (-q)) by (nonlinear_arith)
            requires
                a == d * q,
        ;
        vstd::arithmetic::div_mod::lemma_mod_multiples_basic(-q, d);
        assert((-q) * d == d * (-q)) by (nonlinear_arith);
    }
    if (-a) % d == 0 {
        let q = (-a) / d;
        assert(a == d * (-q)) by (nonlinear_arith)
            requires
                -a == d * q,
        ;
        vstd::arithmetic::div_mod::lemma_mod_multiples_basic(-q, d);
        assert((-q) * d == d * (-q)) by (nonlinear_arith);
    }
}

/// Whether `year` is a leap year of the proleptic Gregorian calendar.
pub fn is_gregorian_leap_year(year: i32) -> (leap: bool)
    ensures
        leap == spec_is_leap_year(year as int),
{
    let magnitude: u32 = if year < 0 {
        (-(year as i64)) as u32
    } else {
        year as u32
    };
    proof {
        lemma_divides_negation(year as int, 4);
        lemma_divides_negation(year as int, 100);
        lemma_divides_negation(year as int, 400);
    }
    (magnitude % 4 == 0 && magnitude % 100 != 0) || magnitude % 400 == 0
}

/// Length in days of `month` (1 = January) of `year`.
pub open spec fn spec_days_in_month(year: int, month: int) -> int {
    if month == 2 {
        if spec_is_leap_year(year) {
            29
        } else {
            28
        }
    } else if month == 4 || month == 6 || month == 9 || month == 11 {
        30
    } else {
        31
    }
}

/// Number of days in `month` (1 = January) of `year`, honouring the Gregorian leap rule.
pub fn days_in_month(year: i32, month: u32) -> (days: u32)
    requires
        1 <= month <= 12,
    ensures
        days == spec_days_in_month(year as int, month as int),
        28 <= days <= 31,
{
    if month == 2 && is_gregorian_leap_year(year) {
        29
    } else {
        match month {
            2 => 28,
            4 | 6 | 9 | 11 => 30,
            _ => 31,
        }
    }
}

/// A calendar label: year, month (1 = January) and day of month (1-based).
#[derive(Clone, Copy, Debug, PartialEq, Eq, Structural)]
pub struct CalendarDate {
    pub year: i32,
    pub month: u32,
    pub day: u32,
}

impl CalendarDate {
    /// The label names a day of the proleptic Gregorian calendar.
    pub open spec fn is_gregorian(self) -> bool {
        &&& 1 <= self.month <= 12
        &&& 1 <= self.day <= spec_days_in_month(self.year as int, self.month as int)
    }

    /// Lexicographic order `(year, month, day) < (other.year, other.month, other.day)`.
    pub open spec fn precedes(self, other: CalendarDate) -> bool {
        ||| self.year < other.year
        ||| self.year == other.year && self.month < other.month
        ||| self.year == other.year && self.month == other.month && self.day < other.day
    }
}

/// Last label of the Julian calendar in the SPA mixed calendar.
pub open spec fn last_julian_date() -> CalendarDate {
    CalendarDate { year: 1582, month: 10, day: 4 }
}

/// First label of the Gregorian calendar in the SPA mixed calendar.
pub open spec fn first_gregorian_date() -> CalendarDate {
    CalendarDate { year: 1582, month: 10, day: 15 }
}

/// The labels 1582-10-05 through 1582-10-14, skipped by the Gregorian reform.
pub open spec fn spec_is_reform_gap(date: CalendarDate) -> bool {
    last_julian_date().precedes(date) && date.precedes(first_gregorian_date())
}

/// Whether `date` lies strictly between 1582-10-04 and 1582-10-15.
pub fn is_gregorian_reform_gap(date: CalendarDate) -> (gap: bool)
    ensures
        gap == spec_is_reform_gap(date),
{
    date.year == 1582 && date.month == 10 && 4 < date.day && date.day < 15
}

/// Days of `year` before the first of `month` (1 = January).
pub open spec fn spec_days_before_month(year: int, month: int) -> int
    decreases month,
{
    if month <= 1 {
        0
    } else {
        spec_days_before_month(year, month - 1) + spec_days_in_month(year, month - 1)
    }
}

/// Days of `date.year` before `date`: the day of the year, counted from zero.
pub open spec fn spec_ordinal0(date: CalendarDate) -> int {
    spec_days_before_month(date.year as int, date.month as int) + date.day - 1
}

/// Number of days in `year`.
pub open spec fn spec_days_in_year(year: int) -> int {
    if spec_is_leap_year(year) {
        366
    } else {
        365
    }
}

/// Day of the year of `date`, counted from zero (January 1 is 0).
pub fn ordinal0(date: CalendarDate) -> (ordinal: u32)
    requires
        date.is_gregorian(),
    ensures
        ordinal == spec_ordinal0(date),
        ordinal < spec_days_in_year(date.year as int),
{
    let leap: u32 = if is_gregorian_leap_year(date.year) {
        1
    } else {
        0
    };
    let before: u32 = match date.month {
        1 => 0,
        2 => 31,
        3 => 59 + leap,
        4 => 90 + leap,
        5 => 120 + leap,
        6 => 151 + leap,
        7 => 181 + leap,
        8 => 212 + leap,
        9 => 243 + leap,
        10 => 273 + leap,
        11 => 304 + leap,
        _ => 334 + leap,
    };
    proof {
        reveal_with_fuel(spec_days_before_month, 13);
    }
    before + date.day - 1
}

/// The Gregorian leap rule holds for every year, before the 1582 reform as
/// after it and for negative (astronomical) years: a year has 366 days, a
/// 29-day February and a March 1 that is day 60 of the year (counted from zero)
/// exactly when it is divisible by 4 and, if it is a century, by 400. Its
/// months add up to its length.
pub proof fn law_gregorian_leap_rule(year: int)
    ensures
        spec_is_leap_year(year) <==> (year % 4 == 0 && (year % 100 != 0 || year % 400 == 0)),
        spec_days_in_month(year, 2) == (if year % 4 == 0 && (year % 100 != 0 || year % 400
            == 0) {
            29int
        } else {
            28int
        }),
        spec_days_in_year(year) == (if year % 4 == 0 && (year % 100 != 0 || year % 400 == 0) {
            366int
        } else {
            365int
        }),
        spec_days_before_month(year, 3) == (if year % 4 == 0 && (year % 100 != 0 || year % 400
            == 0) {
            60int
        } else {
            59int
        }),
        spec_days_before_month(year, 12) + spec_days_in_month(year, 12) == spec_days_in_year(year),
{
    reveal_with_fuel(spec_days_before_month, 13);
}

/// The reform gap is exactly the ten labels 1582-10-05 through 1582-10-14.
pub proof fn law_reform_gap_labels(date: CalendarDate)
    ensures
        spec_is_reform_gap(date) <==> (date.year == 1582 && date.month == 10 && 5 <= date.day
            <= 14),
{
}

/// Thirty days have April, June, September and November; February has 28 or
/// 29; all the rest have 31.
pub proof fn law_month_lengths(year: int, month: int)
    requires
        1 <= month <= 12,
    ensures
        month == 4 || month == 6 || month == 9 || month == 11 ==> spec_days_in_month(year, month)
            == 30,
        month == 1 || month == 3 || month == 5 || month == 7 || month == 8 || month == 10 || month
            == 12 ==> spec_days_in_month(year, month) == 31,
        month == 2 ==> 28 <= spec_days_in_month(year, month) <= 29,
{
}

/// The day of the year counts days: January 1 is day 0, each following day of
/// the year is one more, and December 31 is the last day of the year.
pub proof fn law_ordinal_counts_days(date: CalendarDate)
    requires
        date.is_gregorian(),
    ensures
        date.month == 1 && date.day == 1 ==> spec_ordinal0(date) == 0,
        date.day < spec_days_in_month(date.year as int, date.month as int) ==> spec_ordinal0(
            CalendarDate { day: (date.day + 1) as u32, ..date },
        ) == spec_ordinal0(date) + 1,
        date.day == spec_days_in_month(date.year as int, date.month as int) && date.month < 12
            ==> spec_ordinal0(
            CalendarDate { year: date.year, month: (date.month + 1) as u32, day: 1 },
        ) == spec_ordinal0(date) + 1,
        date.month == 12 && date.day == 31 ==> spec_ordinal0(date) == spec_days_in_year(
            date.year as int,
        ) - 1,
{
    reveal_with_fuel(spec_days_before_month, 13);
}

/// A UTC wall-clock reading: calendar date, time of day and nanoseconds.
/// A nanosecond count from 1_000_000_000 on marks a leap second, as chrono does.
#[derive(Clone, Copy, Debug, PartialEq, Eq, Structural)]
pub struct CivilDateTime {
    pub date: CalendarDate,
    pub hour: u32,
    pub minute: u32,
    pub second: u32,
    pub nanosecond: u32,
}

impl CivilDateTime {
    /// The fields name an instant that chrono's `NaiveDateTime` can hold.
    pub open spec fn is_valid(self) -> bool {
        &&& self.date.is_gregorian()
        &&& self.hour < 24
        &&& self.minute < 60
        &&& self.second < 60
        &&& self.nanosecond < 2_000_000_000
    }

    /// Whole seconds since midnight.
    pub open spec fn seconds_from_midnight(self) -> int {
        self.hour * 3600 + self.minute * 60 + self.second
    }

    /// Nanoseconds since midnight.
    pub open spec fn nanoseconds_from_midnight(self) -> int {
        self.seconds_from_midnight() * 1_000_000_000 + self.nanosecond
    }
}

/// Nanoseconds in one day.
pub const NANOSECONDS_PER_DAY: u64 = 86_400_000_000_000;

} // verus!
