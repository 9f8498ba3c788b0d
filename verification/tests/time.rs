use helioxide::calendar::CalendarDate;
use helioxide::time::{validate_spa_date, SpaDateError, MAX_SPA_YEAR, MIN_SPA_YEAR};

fn date(year: i32, month: u32, day: u32) -> CalendarDate {
    CalendarDate { year, month, day }
}

#[test]
fn validate_spa_date_accepts_the_model_endpoints() {
    assert_eq!(validate_spa_date(date(MIN_SPA_YEAR, 1, 1)), Ok(()));
    assert_eq!(validate_spa_date(date(MAX_SPA_YEAR, 12, 31)), Ok(()));
    assert_eq!(MIN_SPA_YEAR, -2000);
    assert_eq!(MAX_SPA_YEAR, 6000);
}

#[test]
fn validate_spa_date_rejects_years_outside_the_model() {
    for year in [-262_143, -2_001, 6_001, 262_142] {
        assert_eq!(
            validate_spa_date(date(year, 1, 1)),
            Err(SpaDateError::YearOutOfRange(year))
        );
    }
}

#[test]
fn validate_spa_date_rejects_the_reform_gap() {
    for day in 5..=14 {
        assert_eq!(
            validate_spa_date(date(1582, 10, day)),
            Err(SpaDateError::GregorianReformGap)
        );
    }
    for (month, day) in [(10, 4), (10, 15), (11, 1)] {
        assert_eq!(validate_spa_date(date(1582, month, day)), Ok(()));
    }
}
