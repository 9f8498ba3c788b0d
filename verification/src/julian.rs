//! Julian Day Number of a calendar label (equation 4) and its inverse (appendix A.3).
//!
//! The SPA mixed calendar uses Julian labels through 1582-10-04 and Gregorian
//! labels from 1582-10-15. Every `INT` of the paper truncates towards zero, and
//! each real constant of the equations is carried as an exact ratio of integers,
//! so these functions compute the integer part of the paper's expressions exactly.

use vstd::prelude::*;

use crate::calendar::{
    spec_days_in_month, spec_is_reform_gap, CalendarDate, CivilDateTime, is_gregorian_reform_gap,
};

verus! {

#[verifier::external_type_specification]
#[verifier::external_body]
pub struct ExNaiveDate(chrono::NaiveDate);

/// Earliest year that `chrono::NaiveDate` represents.
pub const CHRONO_MIN_YEAR: i32 = -262143;

/// Latest year that `chrono::NaiveDate` represents.
pub const CHRONO_MAX_YEAR: i32 = 262142;

/// `chrono::NaiveDate::from_ymd_opt(year, month, day)` builds a date exactly when
/// `year` lies in chrono's range, `month` in `1..=12` and `day` names a day of that
/// month in the proleptic Gregorian calendar.
pub open spec fn spec_chrono_date_exists(year: int, month: int, day: int) -> bool {
    &&& CHRONO_MIN_YEAR <= year <= CHRONO_MAX_YEAR
    &&& 1 <= month <= 12
    &&& 1 <= day <= spec_days_in_month(year, month)
}

/// `chrono::NaiveDate::from_ymd_opt` returns `Some` exactly for an existing
/// proleptic Gregorian date within chrono's year range (its documentation and
/// source: `Mdf::new` rejects a month above 12 or a day above 31, the ordinal
/// table rejects days that the month lacks, `from_mdf` rejects years outside
/// `MIN_YEAR..=MAX_YEAR`). Nothing is stated of the returned value beyond that.
pub assume_specification[chrono::NaiveDate::from_ymd_opt](year: i32, month: u32, day: u32) -> (date: Option<chrono::NaiveDate>)
    ensures
        date is Some <==> spec_chrono_date_exists(year as int, month as int, day as int),
;

/// `INT(a / b)` of the paper: division truncated towards zero.
pub open spec fn trunc_div(a: int, b: int) -> int {
    if a >= 0 {
        a / b
    } else {
        -((-a) / b)
    }
}

/// `INT(a / b)` on exact integers.
fn trunc_div_i128(a: i128, b: i128) -> (q: i128)
    requires
        b > 0,
        a > i128::MIN,
    ensures
        q == trunc_div(a as int, b as int),
{
    if a >= 0 {
        a / b
    } else {
        -((-a) / b)
    }
}

/// Year and month of equation 4: January and February count as months 13
/// and 14 of the previous year.
pub open spec fn march_based(year: int, month: int) -> (int, int) {
    if month < 3 {
        (year - 1, month + 12)
    } else {
        (year, month)
    }
}

/// Julian Day Number at 12:00 UT of a Julian-calendar label: equation 4
/// without the Gregorian correction `B`. The Julian Day at `h` hours UT is
/// this number `- 0.5 + h / 24`.
pub open spec fn spec_julian_calendar_day_number(year: int, month: int, day: int) -> int {
    let (y, m) = march_based(year, month);
    trunc_div(1461 * (y + 4716), 4) + trunc_div(306001 * (m + 1), 10000) + day - 1524
}

/// Gregorian correction `B = 2 - A + INT(A / 4)` with `A = INT(Y / 100)`.
pub open spec fn spec_gregorian_correction(year: int, month: int) -> int {
    let (y, m) = march_based(year, month);
    let a = trunc_div(y, 100);
    2 - a + trunc_div(a, 4)
}

/// Julian Day Number at 12:00 UT of `date` in the SPA mixed calendar
/// (equation 4), or `None` for the skipped reform dates.
pub open spec fn spec_julian_day_number(date: CalendarDate) -> Option<int> {
    if spec_is_reform_gap(date) {
        None
    } else {
        let base = spec_julian_calendar_day_number(date.year as int, date.month as int, date.day as int);
        if date.precedes(crate::calendar::first_gregorian_date()) {
            Some(base)
        } else {
            Some(base + spec_gregorian_correction(date.year as int, date.month as int))
        }
    }
}

/// Julian Day Number at 12:00 UT of `date` (equation 4): Julian labels through
/// 1582-10-04, Gregorian labels from 1582-10-15, `None` for the labels between.
pub fn julian_day_number(date: CalendarDate) -> (jdn: Option<i64>)
    ensures
        jdn matches Some(n) ==> spec_julian_day_number(date) == Some(n as int),
        jdn is None ==> spec_julian_day_number(date) is None,
{
    if is_gregorian_reform_gap(date) {
        return None;
    }
    let (y, m): (i128, i128) = if date.month < 3 {
        (date.year as i128 - 1, date.month as i128 + 12)
    } else {
        (date.year as i128, date.month as i128)
    };
    let base: i128 = trunc_div_i128(1461 * (y + 4716), 4) + trunc_div_i128(306001 * (m + 1), 10000)
        + date.day as i128 - 1524;
    let first_gregorian = date.year > 1582 || (date.year == 1582 && (date.month > 10 || (
    date.month == 10 && date.day >= 15)));
    let n: i128 = if first_gregorian {
        let a = trunc_div_i128(y, 100);
        base + 2 - a + trunc_div_i128(a, 4)
    } else {
        base
    };
    Some(n as i64)
}

/// `Z` of the first Gregorian day 1582-10-15.
pub const GREGORIAN_REFORM_DAY_NUMBER: i64 = 2299161;

/// `A` of equation A16: the day number carried over to the Julian-calendar count.
pub open spec fn spec_julian_count(z: int) -> int {
    if z < GREGORIAN_REFORM_DAY_NUMBER {
        z
    } else {
        let b = trunc_div(4 * z - 7468865, 146097);
        z + 1 + b - trunc_div(b, 4)
    }
}

/// `(year, month, day)` of equations A17 to A23 for the day number `z`
/// (`INT(JD + 0.5)`). The constants `1867216.25 / 36524.25`, `122.1 / 365.25`,
/// `365.25` and `30.6001` appear as the ratios `7468865 / 146097`,
/// `2442 / 7305`, `1461 / 4` and `306001 / 10000`.
pub open spec fn spec_decode_day_number(z: int) -> (int, int, int) {
    let c = spec_julian_count(z) + 1524;
    let d = trunc_div(20 * c - 2442, 7305);
    let g = trunc_div(1461 * d, 4);
    let i = trunc_div(10000 * (c - g), 306001);
    let day = c - g - trunc_div(306001 * i, 10000);
    let month = if i < 14 {
        i - 1
    } else {
        i - 13
    };
    let year = if month > 2 {
        d - 4716
    } else {
        d - 4715
    };
    (year, month, day)
}

/// Calendar label of the day number `z`, or `None` when chrono cannot represent it.
pub open spec fn spec_calendar_date_from_julian_day_number(z: int) -> Option<CalendarDate> {
    let (year, month, day) = spec_decode_day_number(z);
    if spec_chrono_date_exists(year, month, day) {
        Some(CalendarDate { year: year as i32, month: month as u32, day: day as u32 })
    } else {
        None
    }
}

/// Calendar label of the day number `z` (`INT(JD + 0.5)`), equations A15 to A23:
/// Julian calendar below 2299161, Gregorian from there on. `None` when the label
/// is not a date that `chrono::NaiveDate` represents (outside its year range, or a
/// Julian leap day such as -1000-02-29 that the proleptic Gregorian calendar lacks).
pub fn calendar_date_from_julian_day_number(z: i64) -> (date: Option<CalendarDate>)
    ensures
        date == spec_calendar_date_from_julian_day_number(z as int),
{
    decode_day_number(z as i128)
}

fn decode_day_number(z: i128) -> (date: Option<CalendarDate>)
    requires
        -0x1_0000_0000_0000_0000_0000 <= z <= 0x1_0000_0000_0000_0000_0000,
    ensures
        date == spec_calendar_date_from_julian_day_number(z as int),
{
    let a: i128 = if z < GREGORIAN_REFORM_DAY_NUMBER as i128 {
        z
    } else {
        let b = trunc_div_i128(4 * z - 7468865, 146097);
        z + 1 + b - trunc_div_i128(b, 4)
    };
    let c: i128 = a + 1524;
    let d = trunc_div_i128(20 * c - 2442, 7305);
    let g = trunc_div_i128(1461 * d, 4);
    let i = trunc_div_i128(10000 * (c - g), 306001);
    let day: i128 = c - g - trunc_div_i128(306001 * i, 10000);
    let month: i128 = if i < 14 {
        i - 1
    } else {
        i - 13
    };
    let year: i128 = if month > 2 {
        d - 4716
    } else {
        d - 4715
    };
    if year < i32::MIN as i128 || year > i32::MAX as i128 || month < 0 || month > u32::MAX as i128
        || day < 0 || day > u32::MAX as i128 {
        return None;
    }
    let (year, month, day) = (year as i32, month as u32, day as u32);
    match chrono::NaiveDate::from_ymd_opt(year, month, day) {
        Some(_) => Some(CalendarDate { year, month, day }),
        None => None,
    }
}

/// Seconds in one day.
pub const SECONDS_PER_DAY: i64 = 86400;

/// UTC wall-clock reading `seconds` after 00:00 of the day numbered `day_number`
/// (`INT(JD + 0.5)`), or `None` when chrono cannot represent the date.
pub open spec fn spec_civil_date_time_from_day_number(day_number: int, seconds: int) -> Option<CivilDateTime> {
    let z = day_number + seconds / 86400;
    let s = seconds % 86400;
    match spec_calendar_date_from_julian_day_number(z) {
        Some(date) => Some(CivilDateTime {
            date,
            hour: (s / 3600) as u32,
            minute: (s % 3600 / 60) as u32,
            second: (s % 60) as u32,
            nanosecond: 0,
        }),
        None => None,
    }
}

/// UTC wall-clock reading `seconds` after 00:00 UT of the day numbered
/// `day_number`: whole days of `seconds` (negative ones included) advance the
/// day number before its label is decoded, so that a rounded time of day that
/// reaches midnight lands on the next day's label. `None` when chrono cannot
/// represent the date.
pub fn civil_date_time_from_day_number(day_number: i64, seconds: i64) -> (instant: Option<CivilDateTime>)
    ensures
        instant == spec_civil_date_time_from_day_number(day_number as int, seconds as int),
        instant matches Some(t) ==> t.is_valid() && t.nanosecond == 0
            && t.seconds_from_midnight() == seconds as int % 86400,
{
    let (carry, s): (i64, i64) = if seconds >= 0 {
        (seconds / SECONDS_PER_DAY, seconds % SECONDS_PER_DAY)
    } else {
        let borrow = (-(seconds as i128) - 1) / 86400 + 1;
        ((-borrow) as i64, (seconds as i128 + borrow * 86400) as i64)
    };
    proof {
        assert(carry == seconds / 86400 && s == seconds % 86400);
    }
    match decode_day_number(day_number as i128 + carry as i128) {
        Some(date) => Some(
            CivilDateTime {
                date,
                hour: (s / 3600) as u32,
                minute: (s % 3600 / 60) as u32,
                second: (s % 60) as u32,
                nanosecond: 0,
            },
        ),
        None => None,
    }
}

/// Days from March 1 to the first of month `m` (3 = March, ..., 14 = February),
/// plus 122: `INT(30.6001 (m + 1))`.
pub open spec fn month_offset(m: int) -> int {
    306001 * (m + 1) / 10000
}

/// Length of month `m` (3 = March, ..., 14 = February) in the Julian calendar
/// year that starts in March of March-based year `y` (counted from -4716).
pub open spec fn julian_march_month_length(m: int, y: int) -> int {
    if m == 14 {
        if y % 4 == 3 {
            29
        } else {
            28
        }
    } else if m == 4 || m == 6 || m == 9 || m == 11 {
        30
    } else {
        31
    }
}

/// Decoding the Julian-calendar count of day `d` of month `m` of March-based
/// year `y` recovers `y`, `m` and `d`.
proof fn lemma_decode_julian_count(y: int, m: int, d: int)
    requires
        y >= 0,
        3 <= m <= 14,
        1 <= d <= julian_march_month_length(m, y),
    ensures
        ({
            let c = 1461 * y / 4 + month_offset(m) + d;
            let dd = trunc_div(20 * c - 2442, 7305);
            let g = trunc_div(1461 * dd, 4);
            let i = trunc_div(10000 * (c - g), 306001);
            &&& dd == y
            &&& g == 1461 * y / 4
            &&& i == m + 1
            &&& c - g - trunc_div(306001 * i, 10000) == d
        }),
{
    let q = y / 4;
    let r = y % 4;
    assert(1461 * y / 4 == 1461 * q + 365 * r) by {
        assert(y == 4 * q + r);
        assert(1461 * y == 4 * (1461 * q + 365 * r) + r);
    }
    let off = month_offset(m);
    assert(122 <= off <= 459 && off + d <= 488 && (off + d == 488 ==> r == 3)) by {
        assert(m == 3 || m == 4 || m == 5 || m == 6 || m == 7 || m == 8 || m == 9 || m == 10
            || m == 11 || m == 12 || m == 13 || m == 14);
    }
    let c = 1461 * y / 4 + off + d;
    assert(20 * c - 2442 == 7305 * (4 * q) + (7300 * r + 20 * (off + d) - 2442));
    assert(trunc_div(20 * c - 2442, 7305) == y);
    assert(trunc_div(1461 * y, 4) == 1461 * y / 4);
    assert(trunc_div(10000 * (off + d), 306001) == m + 1) by {
        assert(m == 3 || m == 4 || m == 5 || m == 6 || m == 7 || m == 8 || m == 9 || m == 10
            || m == 11 || m == 12 || m == 13 || m == 14);
    }
}

/// The Gregorian label `(year, month, day)` from 1582-10-15 on: its day number
/// lies in the Gregorian branch of the inverse, and equation A16 carries it back
/// to the Julian-calendar count of the same label.
proof fn lemma_gregorian_count(date: CalendarDate)
    requires
        date.is_gregorian(),
        !date.precedes(crate::calendar::first_gregorian_date()),
    ensures
        ({
            let (yy, mm) = march_based(date.year as int, date.month as int);
            let base = 1461 * (yy + 4716) / 4 + month_offset(mm) + date.day - 1524;
            let c = yy / 100;
            let z = base + 2 - c + c / 4;
            &&& z >= GREGORIAN_REFORM_DAY_NUMBER
            &&& spec_julian_count(z) == base
        }),
{
    let (yy, mm) = march_based(date.year as int, date.month as int);
    let d = date.day as int;
    let y = yy + 4716;
    let off = month_offset(mm);
    let base = 1461 * y / 4 + off + d - 1524;
    let c = yy / 100;
    let z = base + 2 - c + c / 4;
    assert(yy >= 1582);
    let p = c / 4;
    let t = c % 4;
    let sx = yy % 100;
    let u = sx / 4;
    let v = sx % 4;
    assert(yy == 400 * p + 100 * t + 4 * u + v);
    assert(1461 * y / 4 == 1461 * (100 * p + 25 * t + u + 1179) + 365 * v) by {
        assert(1461 * y == 4 * (1461 * (100 * p + 25 * t + u + 1179) + 365 * v) + v);
    }
    assert(122 <= off <= 459 && off + d <= 488) by {
        assert(3 <= mm <= 14);
        assert(mm == 3 || mm == 4 || mm == 5 || mm == 6 || mm == 7 || mm == 8 || mm == 9
            || mm == 10 || mm == 11 || mm == 12 || mm == 13 || mm == 14);
    }
    assert(off + d == 488 ==> (v == 3 && (u == 24 ==> t == 3))) by {
        if off + d == 488 {
            assert(mm == 14 && d == 29);
            assert(date.month == 2);
            assert(date.year as int == yy + 1);
            assert(crate::calendar::spec_is_leap_year(yy + 1));
        }
    }
    assert(off + d >= 123);
    let r = 146096 * t + 5844 * u + 1460 * v + 4 * (off + d) - 584877;
    assert(4 * z - 7468865 == 146097 * (4 * p) + r);
    assert(146097 * (t - 4) <= r < 146097 * (t - 3));
    assert(trunc_div(4 * z - 7468865, 146097) == c - 4);
    assert(z >= GREGORIAN_REFORM_DAY_NUMBER);
}

/// A label up to 1582-10-04 from -4716-03-01 on has a day number in the Julian branch
/// of the inverse.
proof fn lemma_julian_branch(date: CalendarDate)
    requires
        date.is_gregorian(),
        date.year > -4716 || (date.year == -4716 && date.month >= 3),
        date.precedes(crate::calendar::first_gregorian_date()),
        !spec_is_reform_gap(date),
    ensures
        ({
            let (yy, mm) = march_based(date.year as int, date.month as int);
            let base = 1461 * (yy + 4716) / 4 + month_offset(mm) + date.day - 1524;
            base < GREGORIAN_REFORM_DAY_NUMBER
        }),
{
    let (yy, mm) = march_based(date.year as int, date.month as int);
    let d = date.day as int;
    let off = month_offset(mm);
    assert(mm == 3 || mm == 4 || mm == 5 || mm == 6 || mm == 7 || mm == 8 || mm == 9 || mm == 10
        || mm == 11 || mm == 12 || mm == 13 || mm == 14);
    if yy <= 1581 {
        assert(1461 * (yy + 4716) / 4 <= 1461 * (1581 + 4716) / 4);
    } else {
        assert(yy == 1582 && 3 <= mm <= 10);
        assert(mm == 10 ==> d <= 4);
    }
}

/// Equation A15 to A23 undo equation 4: the label recovered from the Julian Day
/// Number of a date is that date. This holds for every existing proleptic
/// Gregorian date from -4716-03-01 (where the truncating `INT` of equation 4
/// starts to round the year term upwards) to the end of chrono's range,
/// outside the skipped reform dates.
pub proof fn law_calendar_date_round_trip(date: CalendarDate)
    requires
        date.is_gregorian(),
        date.year > -4716 || (date.year == -4716 && date.month >= 3),
        date.year <= CHRONO_MAX_YEAR,
        !spec_is_reform_gap(date),
    ensures
        spec_julian_day_number(date) matches Some(n)
            && spec_calendar_date_from_julian_day_number(n) == Some(date),
{
    let (yy, mm) = march_based(date.year as int, date.month as int);
    let y = yy + 4716;
    let d = date.day as int;
    assert(y >= 0);
    assert(trunc_div(1461 * y, 4) == 1461 * y / 4);
    assert(trunc_div(306001 * (mm + 1), 10000) == month_offset(mm));
    let base = 1461 * y / 4 + month_offset(mm) + d - 1524;
    assert(base == spec_julian_calendar_day_number(date.year as int, date.month as int, d));
    assert(d <= julian_march_month_length(mm, y)) by {
        if mm == 14 && d == 29 {
            assert(crate::calendar::spec_is_leap_year(yy + 1));
        }
    }
    lemma_decode_julian_count(y, mm, d);
    if date.precedes(crate::calendar::first_gregorian_date()) {
        lemma_julian_branch(date);
        assert(spec_julian_count(base) == base);
    } else {
        lemma_gregorian_count(date);
        assert(yy >= 0);
        assert(trunc_div(yy, 100) == yy / 100);
        assert(trunc_div(yy / 100, 4) == yy / 100 / 4);
    }
    let n = spec_julian_day_number(date)->0;
    assert(spec_julian_count(n) == base);
    let (year, month, day) = spec_decode_day_number(n);
    assert(year == date.year && month == date.month && day == date.day);
}

/// Every Julian-calendar count `c >= 123` decodes to a day `d` of a month `m` of
/// a March-based year `y >= 0` whose count is `c` again.
proof fn lemma_julian_count_is_label(c: int)
    requires
        c >= 123,
    ensures
        ({
            let y = trunc_div(20 * c - 2442, 7305);
            let g = trunc_div(1461 * y, 4);
            let i = trunc_div(10000 * (c - g), 306001);
            let m = i - 1;
            let d = c - g - trunc_div(306001 * i, 10000);
            &&& y >= 0
            &&& g == 1461 * y / 4
            &&& 3 <= m <= 14
            &&& 1 <= d <= julian_march_month_length(m, y)
            &&& c == 1461 * y / 4 + month_offset(m) + d
        }),
{
    let y = (20 * c - 2442) / 7305;
    assert(trunc_div(20 * c - 2442, 7305) == y);
    let q = y / 4;
    let r = y % 4;
    assert(1461 * y / 4 == 1461 * q + 365 * r) by {
        assert(y == 4 * q + r);
        assert(1461 * y == 4 * (1461 * q + 365 * r) + r);
    }
    let g = 1461 * y / 4;
    assert(20 * g == 7305 * y - 5 * r);
    let k = c - g;
    assert(123 <= k <= 488);
    assert(k == 488 ==> r == 3);
    let i = 10000 * k / 306001;
    assert(4 <= i <= 15);
    assert(i == 4 || i == 5 || i == 6 || i == 7 || i == 8 || i == 9 || i == 10 || i == 11 || i == 12
        || i == 13 || i == 14 || i == 15);
}

/// Equation 4 undoes equations A15 to A23: every day number from -1401 on
/// whose label chrono represents is the Julian Day Number of that label.
pub proof fn law_julian_day_number_round_trip(z: int)
    requires
        z >= -1401,
        spec_calendar_date_from_julian_day_number(z) is Some,
    ensures
        spec_julian_day_number(spec_calendar_date_from_julian_day_number(z)->0) == Some(z),
{
    let date = spec_calendar_date_from_julian_day_number(z)->0;
    let a = spec_julian_count(z);
    let c = a + 1524;
    let first = crate::calendar::first_gregorian_date();
    if z < GREGORIAN_REFORM_DAY_NUMBER {
        assert(c >= 123);
        lemma_julian_count_is_label(c);
        let y = trunc_div(20 * c - 2442, 7305);
        let i = trunc_div(10000 * (c - trunc_div(1461 * y, 4)), 306001);
        let m = i - 1;
        let d = c - trunc_div(1461 * y, 4) - trunc_div(306001 * i, 10000);
        assert(march_based(date.year as int, date.month as int) == (y - 4716, m));
        assert(date.day == d);
        assert(month_offset(m) == trunc_div(306001 * (m + 1), 10000));
        assert(trunc_div(1461 * y, 4) == 1461 * y / 4);
        assert(spec_julian_calendar_day_number(date.year as int, date.month as int, d) == z);
        assert(date.precedes(first) && !spec_is_reform_gap(date)) by {
            assert(m == 3 || m == 4 || m == 5 || m == 6 || m == 7 || m == 8 || m == 9 || m == 10
                || m == 11 || m == 12 || m == 13 || m == 14);
            if y - 4716 >= 1583 {
                assert(1461 * y / 4 >= 1461 * (1583 + 4716) / 4);
            }
        }
    } else {
        let b = trunc_div(4 * z - 7468865, 146097);
        assert(b == (4 * z - 7468865) / 146097);
        let e = (4 * z - 7468865) % 146097;
        assert(4 * z - 7468865 == 146097 * b + e);
        assert(b >= 11);
        let p = b / 4;
        let t = b % 4;
        assert(b == 4 * p + t);
        assert(trunc_div(b, 4) == p);
        assert(a == z + 1 + b - p);
        assert(c >= 123);
        lemma_julian_count_is_label(c);
        let y = trunc_div(20 * c - 2442, 7305);
        let i = trunc_div(10000 * (c - trunc_div(1461 * y, 4)), 306001);
        let m = i - 1;
        let d = c - trunc_div(1461 * y, 4) - trunc_div(306001 * i, 10000);
        assert(20 * c - 2442 == 7305 * (100 * (b + 4) + 4716) + 5 * (t + e) + 3);
        assert(100 * (b + 4) + 4716 <= y <= 100 * (b + 4) + 4716 + 99);
        let yy = y - 4716;
        assert(yy / 100 == b + 4);
        assert(march_based(date.year as int, date.month as int) == (yy, m));
        assert(date.day == d);
        assert(month_offset(m) == trunc_div(306001 * (m + 1), 10000));
        assert(trunc_div(1461 * y, 4) == 1461 * y / 4);
        assert(trunc_div(yy, 100) == b + 4);
        assert(trunc_div(b + 4, 4) == p + 1);
        assert(spec_julian_calendar_day_number(date.year as int, date.month as int, d)
            + spec_gregorian_correction(date.year as int, date.month as int) == z);
        assert(!date.precedes(first) && !spec_is_reform_gap(date)) by {
            assert(m == 3 || m == 4 || m == 5 || m == 6 || m == 7 || m == 8 || m == 9 || m == 10
                || m == 11 || m == 12 || m == 13 || m == 14);
            if yy <= 1581 {
                assert(1461 * y / 4 <= 1461 * (1581 + 4716) / 4);
            }
        }
    }
}

/// The reading returned for `seconds` after 00:00 of the day numbered
/// `day_number` lies that many seconds after midnight of its date: its time of
/// day is the remainder of `seconds` modulo one day, and its date is the label
/// of the day number advanced by the whole days of `seconds`.
pub proof fn law_civil_time_of_day(day_number: int, seconds: int)
    requires
        spec_civil_date_time_from_day_number(day_number, seconds) is Some,
    ensures
        ({
            let t = spec_civil_date_time_from_day_number(day_number, seconds)->0;
            &&& t.hour < 24 && t.minute < 60 && t.second < 60 && t.nanosecond == 0
            &&& 0 <= t.seconds_from_midnight() < 86400
            &&& (day_number + seconds / 86400) * 86400 + t.seconds_from_midnight() == day_number
                * 86400 + seconds
            &&& spec_calendar_date_from_julian_day_number(day_number + seconds / 86400) == Some(
                t.date,
            )
        }),
{
    let s = seconds % 86400;
    assert(s == (s / 3600) * 3600 + (s % 3600 / 60) * 60 + s % 60);
}

/// Length of `month` of `year` in the SPA mixed calendar: the Julian leap rule
/// (every fourth year) for months before October 1582, the Gregorian rule from
/// October 1582 on.
pub open spec fn spec_mixed_days_in_month(year: int, month: int) -> int {
    if year < 1582 || (year == 1582 && month < 10) {
        if month == 2 {
            if year % 4 == 0 {
                29
            } else {
                28
            }
        } else {
            spec_days_in_month(year, month)
        }
    } else {
        spec_days_in_month(year, month)
    }
}

/// The label of the day after `date` in the SPA mixed calendar: 1582-10-04 is
/// followed by 1582-10-15.
pub open spec fn spec_next_label(date: CalendarDate) -> CalendarDate {
    if date == crate::calendar::last_julian_date() {
        crate::calendar::first_gregorian_date()
    } else if date.day < spec_mixed_days_in_month(date.year as int, date.month as int) {
        CalendarDate { day: (date.day + 1) as u32, ..date }
    } else if date.month < 12 {
        CalendarDate { year: date.year, month: (date.month + 1) as u32, day: 1 }
    } else {
        CalendarDate { year: (date.year + 1) as i32, month: 1, day: 1 }
    }
}

/// Equation 4 counts consecutive days: the label after `date` in the SPA mixed
/// calendar has the next Julian Day Number, across month and year ends, the
/// Julian and Gregorian leap days, and the 1582 reform. This holds from
/// -4716-03-01 on, where the truncating `INT` of the year term agrees with the
/// floor.
pub proof fn law_julian_day_number_counts_days(date: CalendarDate)
    requires
        date.year > -4716 || (date.year == -4716 && date.month >= 3),
        date.year < i32::MAX,
        1 <= date.month <= 12,
        1 <= date.day <= spec_mixed_days_in_month(date.year as int, date.month as int),
        !spec_is_reform_gap(date),
    ensures
        spec_julian_day_number(spec_next_label(date)) == Some(
            spec_julian_day_number(date)->0 + 1,
        ),
{
    let next = spec_next_label(date);
    let (yy, mm) = march_based(date.year as int, date.month as int);
    let (ny, nm) = march_based(next.year as int, next.month as int);
    let y = yy + 4716;
    let d = date.day as int;
    assert(y >= 0);
    assert(mm == 3 || mm == 4 || mm == 5 || mm == 6 || mm == 7 || mm == 8 || mm == 9 || mm == 10
        || mm == 11 || mm == 12 || mm == 13 || mm == 14);
    assert(trunc_div(1461 * y, 4) == 1461 * y / 4);
    assert(trunc_div(1461 * (ny + 4716), 4) == 1461 * (ny + 4716) / 4);
    assert(trunc_div(306001 * (mm + 1), 10000) == month_offset(mm));
    assert(trunc_div(306001 * (nm + 1), 10000) == month_offset(nm));
    assert(yy >= 0 ==> trunc_div(yy, 100) == yy / 100 && trunc_div(yy / 100, 4) == yy / 100 / 4);
    assert(ny >= 0 ==> trunc_div(ny, 100) == ny / 100 && trunc_div(ny / 100, 4) == ny / 100 / 4);
    if date == crate::calendar::last_julian_date() {
    } else if nm == 3 && mm == 14 {
        // February to March: the March-based year advances.
        assert(ny == yy + 1);
        let q = y / 4;
        let r = y % 4;
        assert(1461 * y / 4 == 1461 * q + 365 * r) by {
            assert(1461 * y == 4 * (1461 * q + 365 * r) + r);
        }
        assert(1461 * (y + 1) / 4 == 1461 * y / 4 + 365 + (if r == 3 { 1int } else { 0 })) by {
            if r == 3 {
                assert(1461 * (y + 1) == 4 * (1461 * (q + 1)));
            } else {
                assert(1461 * (y + 1) == 4 * (1461 * q + 365 * (r + 1)) + r + 1);
            }
        }
        assert(r == 3 <==> (yy + 1) % 4 == 0);
    } else {
        assert(ny == yy);
    }
}

} // verus!
