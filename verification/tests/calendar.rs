use helioxide::calendar::{
    days_in_month, is_gregorian_leap_year, is_gregorian_reform_gap, ordinal0, CalendarDate,
};

#[test]
fn days_in_month_handles_february_leap_rule() {
    assert_eq!(days_in_month(2_020, 2), 29);
    assert_eq!(days_in_month(2_021, 2), 28);
    assert_eq!(days_in_month(1_900, 2), 28);
    assert_eq!(days_in_month(2_000, 2), 29);
    assert_eq!(days_in_month(2_023, 1), 31);
    assert_eq!(days_in_month(2_023, 4), 30);
    assert_eq!(days_in_month(2_023, 12), 31);
}

#[test]
fn leap_year_predicate_covers_400_year_cycle() {
    assert!(is_gregorian_leap_year(2_000));
    assert!(is_gregorian_leap_year(2_024));
    assert!(!is_gregorian_leap_year(1_900));
    assert!(!is_gregorian_leap_year(2_023));
    assert!(is_gregorian_leap_year(-4));
    assert!(!is_gregorian_leap_year(-1));
}

#[test]
fn leap_years_repeat_every_four_centuries() {
    for year in [-2_000, -401, -100, 0, 1, 4, 100, 1_600, 1_700, 2_100] {
        assert_eq!(is_gregorian_leap_year(year), is_gregorian_leap_year(year + 400));
    }
    assert!(!is_gregorian_leap_year(-100));
    assert!(is_gregorian_leap_year(-400));
    assert!(is_gregorian_leap_year(i32::MIN));
    assert!(!is_gregorian_leap_year(i32::MAX));
}

#[test]
fn months_have_their_calendar_lengths() {
    let lengths = [31, 28, 31, 30, 31, 30, 31, 31, 30, 31, 30, 31];
    for (month, &length) in (1..=12).zip(lengths.iter()) {
        assert_eq!(days_in_month(2_023, month), length);
    }
    assert_eq!(days_in_month(-4, 2), 29);
}

#[test]
fn reform_gap_covers_exactly_the_ten_skipped_labels() {
    for day in 1..=31 {
        let date = CalendarDate { year: 1582, month: 10, day };
        assert_eq!(is_gregorian_reform_gap(date), (5..=14).contains(&day));
    }
    assert!(!is_gregorian_reform_gap(CalendarDate { year: 1583, month: 10, day: 10 }));
    assert!(!is_gregorian_reform_gap(CalendarDate { year: 1582, month: 9, day: 10 }));
}

#[test]
fn ordinal_counts_days_from_january_first() {
    assert_eq!(ordinal0(CalendarDate { year: 2_024, month: 1, day: 1 }), 0);
    assert_eq!(ordinal0(CalendarDate { year: 2_024, month: 2, day: 29 }), 59);
    assert_eq!(ordinal0(CalendarDate { year: 2_024, month: 3, day: 1 }), 60);
    assert_eq!(ordinal0(CalendarDate { year: 2_023, month: 3, day: 1 }), 59);
    assert_eq!(ordinal0(CalendarDate { year: 2_024, month: 12, day: 31 }), 365);
    assert_eq!(ordinal0(CalendarDate { year: 2_023, month: 12, day: 31 }), 364);
}
