//! Date range and calendar checks that the solar pipelines apply to their inputs.

use vstd::prelude::*;

use crate::calendar::{spec_is_reform_gap, CalendarDate, is_gregorian_reform_gap};

verus! {

/// Earliest UTC year covered by the SPA model.
pub const MIN_SPA_YEAR: i32 = -2000;

/// Latest UTC year covered by the SPA model.
pub const MAX_SPA_YEAR: i32 = 6000;

/// A UTC calendar date that the SPA model does not cover.
#[derive(Clone, Copy, Debug, PartialEq, Eq, Structural)]
pub enum SpaDateError {
    /// UTC year lies outside `[MIN_SPA_YEAR, MAX_SPA_YEAR]`.
    YearOutOfRange(i32),
    /// Calendar label belongs to the skipped dates 1582-10-05 through 1582-10-14.
    GregorianReformGap,
}

/// Accept a UTC calendar date inside the SPA year range and outside the
/// Gregorian reform gap. The year is checked first.
pub fn validate_spa_date(date: CalendarDate) -> (checked: Result<(), SpaDateError>)
    ensures
        checked == (if !(MIN_SPA_YEAR <= date.year <= MAX_SPA_YEAR) {
            Err(SpaDateError::YearOutOfRange(date.year))
        } else if spec_is_reform_gap(date) {
            Err(SpaDateError::GregorianReformGap)
        } else {
            Ok(())
        }),
{
    if date.year < MIN_SPA_YEAR || date.year > MAX_SPA_YEAR {
        return Err(SpaDateError::YearOutOfRange(date.year));
    }
    if is_gregorian_reform_gap(date) {
        return Err(SpaDateError::GregorianReformGap);
    }
    Ok(())
}

} // verus!
