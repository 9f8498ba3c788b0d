use chrono::{DateTime, Datelike, TimeZone, Timelike, Utc};
use chrono_tz::Tz;
use helioxide::calendar::{CalendarDate, CivilDateTime};
use helioxide::delta_t::{
    observed_delta_t_for_datetime, year_fraction, ObservedDeltaT, OBSERVED_BASE_MONTH,
    OBSERVED_BASE_YEAR, OBSERVED_DELTA_T,
};

fn civil<Z: TimeZone>(datetime: &DateTime<Z>) -> CivilDateTime {
    let naive = datetime.naive_utc();
    CivilDateTime {
        date: CalendarDate {
            year: naive.year(),
            month: naive.month(),
            day: naive.day(),
        },
        hour: naive.hour(),
        minute: naive.minute(),
        second: naive.second(),
        nanosecond: naive.nanosecond(),
    }
}

fn seconds(observed: ObservedDeltaT) -> f64 {
    let a = f64::from(observed.earlier) / 10_000.0;
    let b = f64::from(observed.later) / 10_000.0;
    let fraction = observed.elapsed_nanoseconds as f64 / observed.month_nanoseconds as f64;
    (b - a).mul_add(fraction, a)
}

fn observed_delta_t_seconds_for_datetime<Z: TimeZone>(datetime: &DateTime<Z>) -> Option<f64> {
    observed_delta_t_for_datetime(civil(datetime)).map(seconds)
}

fn decimal_year<Z: TimeZone>(datetime: &DateTime<Z>) -> f64 {
    let instant = civil(datetime);
    let fraction = year_fraction(instant);
    f64::from(instant.date.year)
        + fraction.elapsed_nanoseconds as f64 / fraction.year_nanoseconds as f64
}

#[test]
fn observed_table_is_well_formed() {
    // 1973-02 .. 2026-04 inclusive = 11 + 52*12 + 4 = 639 monthly entries.
    assert_eq!(OBSERVED_DELTA_T.len(), 639);
    assert_eq!(OBSERVED_BASE_YEAR, 1_973);
    assert_eq!(OBSERVED_BASE_MONTH, 2);
}

#[test]
fn observed_lookup_matches_table_anchor_on_first_of_month() {
    // 2020-01-01 00:00 UTC → first cell of the 2020 row.
    let dt = Utc.with_ymd_and_hms(2_020, 1, 1, 0, 0, 0).unwrap();
    let v = observed_delta_t_seconds_for_datetime(&dt).unwrap();
    assert!((v - 69.3612).abs() < 1e-12);
}

#[test]
fn observed_lookup_interpolates_linearly_between_months() {
    // Halfway through April 2021 (30 days): expect mean of Apr 1 and May 1.
    let dt = Utc.with_ymd_and_hms(2_021, 4, 16, 0, 0, 0).unwrap();
    let expected = f64::midpoint(69.3582, 69.3673);
    let v = observed_delta_t_seconds_for_datetime(&dt).unwrap();
    assert!((v - expected).abs() < 1e-9);
}

#[test]
fn observed_lookup_honours_february_leap_day_count() {
    // 2020 is a leap year: Feb has 29 days, midpoint sits at Feb 15 12:00 UTC.
    let dt = Utc.with_ymd_and_hms(2_020, 2, 15, 12, 0, 0).unwrap();
    let expected = f64::midpoint(69.3752, 69.3890);
    let v = observed_delta_t_seconds_for_datetime(&dt).unwrap();
    assert!((v - expected).abs() < 1e-9);
}

#[test]
fn observed_lookup_returns_none_before_first_sample() {
    let before = Utc.with_ymd_and_hms(1_973, 1, 31, 23, 59, 59).unwrap();
    assert!(observed_delta_t_seconds_for_datetime(&before).is_none());
    let way_before = Utc.with_ymd_and_hms(1_900, 6, 1, 0, 0, 0).unwrap();
    assert!(observed_delta_t_seconds_for_datetime(&way_before).is_none());
}

#[test]
fn observed_lookup_returns_none_at_and_after_last_sample() {
    // The published window ends with the Apr 2026 sample; from there on we
    // need the next month's value to interpolate, so the lookup fails.
    let last = Utc.with_ymd_and_hms(2_026, 4, 1, 0, 0, 0).unwrap();
    assert!(observed_delta_t_seconds_for_datetime(&last).is_none());
    let after = Utc.with_ymd_and_hms(2_030, 1, 1, 0, 0, 0).unwrap();
    assert!(observed_delta_t_seconds_for_datetime(&after).is_none());
}

#[test]
fn observed_lookup_is_timezone_invariant() {
    let madrid = chrono_tz::Tz::Europe__Madrid
        .with_ymd_and_hms(2_024, 7, 1, 2, 0, 0)
        .unwrap();
    let utc = madrid.with_timezone(&Utc);
    let m = observed_delta_t_seconds_for_datetime(&madrid).unwrap();
    let u = observed_delta_t_seconds_for_datetime(&utc).unwrap();
    assert!((m - u).abs() < 1e-12);
}

#[test]
fn observed_lookup_brackets_the_month_with_its_samples() {
    let dt = Utc.with_ymd_and_hms(2_021, 4, 16, 0, 0, 0).unwrap();
    let observed = observed_delta_t_for_datetime(civil(&dt)).unwrap();
    assert_eq!(observed.earlier, 693_582);
    assert_eq!(observed.later, 693_673);
    assert_eq!(observed.elapsed_nanoseconds, 15 * 86_400_000_000_000);
    assert_eq!(observed.month_nanoseconds, 30 * 86_400_000_000_000);

    let first = Utc.with_ymd_and_hms(1_973, 2, 1, 0, 0, 0).unwrap();
    let observed = observed_delta_t_for_datetime(civil(&first)).unwrap();
    assert_eq!(observed.earlier, 434_724);
    assert_eq!(observed.elapsed_nanoseconds, 0);

    let last = Utc.with_ymd_and_hms(2_026, 3, 31, 23, 59, 59).unwrap();
    let observed = observed_delta_t_for_datetime(civil(&last)).unwrap();
    assert_eq!(observed.later, 691_330);
    assert!(observed.elapsed_nanoseconds < observed.month_nanoseconds);
}

#[test]
fn decimal_year_anchors_january_first_to_year_dot_zero() {
    for year in [1_900, 1_999, 2_000, 2_024, 2_026] {
        let dt = Utc.with_ymd_and_hms(year, 1, 1, 0, 0, 0).unwrap();
        assert!((decimal_year(&dt) - f64::from(year)).abs() < f64::EPSILON);
    }
}

#[test]
fn decimal_year_recognises_leap_days() {
    for year in [2_000, 2_024] {
        let dt = Utc.with_ymd_and_hms(year, 2, 29, 0, 0, 0).unwrap();
        let expected = f64::from(year) + 59.0 / 366.0;
        assert!((decimal_year(&dt) - expected).abs() < 1e-9);
    }
}

#[test]
fn decimal_year_last_moment_of_leap_year_stays_inside() {
    let dt = Utc.with_ymd_and_hms(2_024, 12, 31, 23, 59, 59).unwrap();
    let computed = decimal_year(&dt);
    let expected = 2_024.0_f64 + (365.0 + 86_399.0 / 86_400.0) / 366.0;
    assert!((computed - expected).abs() < 1e-12);
    assert!(computed < 2_025.0);
}

#[test]
fn decimal_year_propagates_subsecond_precision() {
    let base = Utc.with_ymd_and_hms(2_026, 5, 16, 12, 0, 0).unwrap();
    let with_nanos = base.with_nanosecond(500_000_000).unwrap();
    let delta = decimal_year(&with_nanos) - decimal_year(&base);
    assert!((delta - 0.5 / 86_400.0 / 365.0).abs() < 1e-12);
}

#[test]
fn decimal_year_is_timezone_invariant() {
    let madrid = Tz::Europe__Madrid
        .with_ymd_and_hms(2_026, 5, 16, 18, 0, 0)
        .unwrap();
    let honolulu = madrid.with_timezone(&Tz::Pacific__Honolulu);
    let utc = madrid.with_timezone(&Utc);
    let m = decimal_year(&madrid);
    assert!((m - decimal_year(&honolulu)).abs() < f64::EPSILON);
    assert!((m - decimal_year(&utc)).abs() < f64::EPSILON);
}

#[test]
fn year_fraction_counts_nanoseconds_of_the_year() {
    let dt = Utc.with_ymd_and_hms(2_023, 3, 1, 6, 0, 0).unwrap();
    let fraction = year_fraction(civil(&dt));
    assert_eq!(
        fraction.elapsed_nanoseconds,
        (59 * 86_400 + 6 * 3_600) * 1_000_000_000
    );
    assert_eq!(fraction.year_nanoseconds, 365 * 86_400_000_000_000);
}
