//! Observed `ΔT = TT − UT1` from the USNO monthly table, and the position of an
//! instant within its year for the Espenak–Meeus polynomials.
//!
//! Both are exact integer computations: the table holds `ΔT` in units of
//! `0.0001 s` (every published value has four decimals), and the interpolation
//! weight is returned as a ratio of nanosecond counts.

use vstd::prelude::*;

use crate::calendar::{
    spec_days_before_month, days_in_month, ordinal0, spec_days_in_month, spec_days_in_year, spec_ordinal0, CivilDateTime,
    is_gregorian_leap_year, NANOSECONDS_PER_DAY,
};

verus! {

/// Calendar year of the first observed `ΔT` sample.
pub const OBSERVED_BASE_YEAR: i32 = 1973;

/// Calendar month of the first observed `ΔT` sample.
pub const OBSERVED_BASE_MONTH: i32 = 2;

/// Observed monthly `ΔT` values in units of `0.0001 s`, one entry per month
/// starting at (`OBSERVED_BASE_YEAR`, `OBSERVED_BASE_MONTH`), each sampled at
/// 00:00 UTC on the first of the month. Snapshot of the USNO series
/// <https://maia.usno.navy.mil/ser7/deltat.data> covering Feb 1973 through Apr 2026.
pub const OBSERVED_DELTA_T: [u32; 639] = [
    // 1973
    434724, 435648, 436737, 437782, 438763, 439562, 440315, 441132, 441982, 442952,
    443936,
    // 1974
    444841, 445646, 446425, 447386, 448370, 449302, 449986, 450584, 451284, 452064,
    452980, 453897,
    // 1975
    454761, 455632, 456450, 457375, 458284, 459133, 459820, 460407, 461067, 461825,
    462789, 463713,
    // 1976
    464567, 465445, 466311, 467302, 468284, 469247, 469970, 470709, 471451, 472362,
    473413, 474319,
    // 1977
    475214, 476049, 476837, 477781, 478771, 479687, 480348, 480942, 481608, 482460,
    483439, 484355,
    // 1978
    485344, 486325, 487294, 488365, 489353, 490319, 491013, 491591, 492286, 493070,
    494018, 494945,
    // 1979
    495861, 496805, 497602, 498556, 499489, 500347, 501019, 501622, 502260, 502968,
    503831, 504599,
    // 1980
    505387, 506160, 506866, 507658, 508454, 509187, 509761, 510278, 510843, 511538,
    512319, 513063,
    // 1981
    513808, 514526, 515160, 515985, 516809, 517573, 518133, 518532, 519014, 519603,
    520328, 520985,
    // 1982
    521668, 522316, 522938, 523680, 524465, 525180, 525751, 526178, 526668, 527340,
    528056, 528792,
    // 1983
    529565, 530445, 531268, 532197, 533024, 533747, 534335, 534778, 535300, 535845,
    536523, 537256,
    // 1984
    537882, 538367, 538830, 539443, 540042, 540536, 540856, 541084, 541463, 541914,
    542452, 542958,
    // 1985
    543427, 543911, 544320, 544898, 545456, 545977, 546355, 546532, 546776, 547174,
    547741, 548253,
    // 1986
    548713, 549161, 549581, 549997, 550476, 550912, 551132, 551328, 551532, 551898,
    552416, 552838,
    // 1987
    553222, 553613, 554063, 554629, 555111, 555524, 555812, 556004, 556262, 556656,
    557168, 557698,
    // 1988
    558197, 558615, 559130, 559663, 560220, 560700, 560939, 561105, 561314, 561611,
    562068, 562583,
    // 1989
    563000, 563399, 563790, 564283, 564804, 565352, 565697, 565983, 566328, 566739,
    567332, 567972,
    // 1990
    568553, 569111, 569755, 570471, 571136, 571738, 572226, 572597, 573073, 573643,
    574334, 575016,
    // 1991
    575653, 576333, 576973, 577711, 578407, 579058, 579576, 579975, 580426, 581043,
    581679, 582389,
    // 1992
    583092, 583833, 584537, 585401, 586228, 586917, 587410, 587836, 588406, 588986,
    589714, 590438,
    // 1993
    591218, 592003, 592747, 593574, 594434, 595242, 595850, 596343, 596928, 597588,
    598386, 599111,
    // 1994
    599845, 600564, 601231, 602042, 602804, 603530, 604012, 604440, 604900, 605578,
    606324, 607059,
    // 1995
    607853, 608664, 609387, 610277, 611103, 611870, 612454, 612881, 613378, 614036,
    614760, 615525,
    // 1996
    616287, 616846, 617433, 618132, 618823, 619497, 619969, 620343, 620714, 621202,
    621810, 622382,
    // 1997
    622950, 623506, 623995, 624754, 625463, 626136, 626571, 626942, 627383, 627926,
    628567, 629146,
    // 1998
    629659, 630217, 630807, 631462, 632053, 632599, 632844, 632961, 633126, 633422,
    633871, 634339,
    // 1999
    634673, 634979, 635319, 635679, 636104, 636444, 636642, 636739, 636926, 637147,
    637518, 637927,
    // 2000
    638285, 638557, 638804, 639075, 639393, 639691, 639799, 639833, 639938, 640093,
    640400, 640670,
    // 2001
    640908, 641068, 641282, 641584, 641833, 642094, 642117, 642073, 642116, 642223,
    642500, 642761,
    // 2002
    642998, 643192, 643450, 643735, 643943, 644151, 644132, 644118, 644097, 644168,
    644329, 644511,
    // 2003
    644734, 644893, 645053, 645269, 645471, 645597, 645512, 645371, 645359, 645415,
    645544, 645654,
    // 2004
    645736, 645891, 646015, 646176, 646374, 646549, 646530, 646379, 646372, 646400,
    646543, 646723,
    // 2005
    646876, 647052, 647313, 647575, 647811, 648001, 647995, 647876, 647831, 647921,
    648096, 648311,
    // 2006
    648452, 648597, 648850, 649175, 649480, 649794, 649895, 650028, 650138, 650371,
    650773, 651122,
    // 2007
    651464, 651833, 652145, 652494, 652921, 653279, 653413, 653452, 653496, 653711,
    653972, 654296,
    // 2008
    654573, 654868, 655152, 655450, 655781, 656127, 656288, 656370, 656493, 656760,
    657097, 657461,
    // 2009
    657768, 658025, 658237, 658595, 658973, 659323, 659509, 659534, 659628, 659839,
    660147, 660420,
    // 2010
    660699, 660961, 661310, 661683, 662072, 662356, 662409, 662335, 662349, 662441,
    662751, 663054,
    // 2011
    663246, 663406, 663624, 663957, 664289, 664619, 664749, 664751, 664829, 665056,
    665383, 665706,
    // 2012
    666030, 666340, 666569, 666925, 667289, 667579, 667708, 667740, 667846, 668103,
    668400, 668779,
    // 2013
    669069, 669443, 669763, 670258, 670716, 671100, 671266, 671331, 671458, 671717,
    672091, 672460,
    // 2014
    672810, 673136, 673457, 673890, 674318, 674666, 674858, 674989, 675111, 675353,
    675711, 676070,
    // 2015
    676439, 676765, 677117, 677591, 678012, 678402, 678606, 678822, 679120, 679546,
    680055, 680514,
    // 2016
    681024, 681577, 682044, 682665, 683188, 683704, 683964, 684094, 684305, 684630,
    685078, 685537,
    // 2017
    685927, 686298, 686671, 687135, 687623, 688033, 688245, 688373, 688477, 688689,
    689006, 689355,
    // 2018
    689676, 689875, 690176, 690499, 690823, 691070, 691134, 691142, 691207, 691356,
    691646, 691964,
    // 2019
    692202, 692452, 692733, 693032, 693326, 693541, 693582, 693442, 693376, 693377,
    693432, 693540,
    // 2020
    693612, 693752, 693890, 694092, 694265, 694386, 694241, 693921, 693693, 693575,
    693593, 693630,
    // 2021
    693594, 693510, 693538, 693582, 693673, 693679, 693514, 693273, 693033, 692892,
    692881, 692908,
    // 2022
    692945, 692914, 692861, 692835, 692816, 692799, 692527, 692213, 691975, 691891,
    691942, 692036,
    // 2023
    692039, 691986, 691993, 692084, 692183, 692300, 692201, 691988, 691814, 691723,
    691727, 691724,
    // 2024
    691752, 691797, 691874, 691983, 692018, 692044, 691879, 691588, 691322, 691250,
    691304, 691345,
    // 2025
    691377, 691366, 691384, 691471, 691542, 691550, 691406, 691219, 690994, 690909,
    690909, 691042,
    // 2026
    691099, 691133, 691168, 691330,
];

/// Month index into [`OBSERVED_DELTA_T`] of the month that holds `instant`.
pub open spec fn spec_observed_month_index(instant: CivilDateTime) -> int {
    (instant.date.year - OBSERVED_BASE_YEAR) * 12 + (instant.date.month - OBSERVED_BASE_MONTH)
}

/// The two monthly samples that bracket an instant and the instant's position
/// between them. `ΔT` in seconds is
/// `(earlier + (later - earlier) · elapsed_nanoseconds / month_nanoseconds) / 10_000`.
#[derive(Clone, Copy, Debug, PartialEq, Eq, Structural)]
pub struct ObservedDeltaT {
    /// `ΔT` at 00:00 UTC on the first of the instant's month, in `0.0001 s`.
    pub earlier: u32,
    /// `ΔT` at 00:00 UTC on the first of the next month, in `0.0001 s`.
    pub later: u32,
    /// Nanoseconds from the first of the month to the instant.
    pub elapsed_nanoseconds: u64,
    /// Nanoseconds in the instant's month.
    pub month_nanoseconds: u64,
}

/// Bracketing samples of `instant`, or `None` outside the published window
/// (before the first sample, or from the last sample on, where no next month
/// is available to interpolate towards).
pub open spec fn spec_observed_delta_t(instant: CivilDateTime) -> Option<ObservedDeltaT> {
    let index = spec_observed_month_index(instant);
    if index < 0 || index + 1 >= OBSERVED_DELTA_T@.len() {
        None
    } else {
        Some(ObservedDeltaT {
            earlier: OBSERVED_DELTA_T@[index],
            later: OBSERVED_DELTA_T@[index + 1],
            elapsed_nanoseconds: ((instant.date.day - 1) * 86_400_000_000_000
                + instant.nanoseconds_from_midnight()) as u64,
            month_nanoseconds: (spec_days_in_month(
                instant.date.year as int,
                instant.date.month as int,
            ) * 86_400_000_000_000) as u64,
        })
    }
}

/// Observed `ΔT` at the UTC instant `instant`, as the two monthly samples around
/// it and the linear interpolation weight between them. `None` when the
/// instant lies outside the published window.
pub fn observed_delta_t_for_datetime(instant: CivilDateTime) -> (observed: Option<ObservedDeltaT>)
    requires
        instant.is_valid(),
    ensures
        observed == spec_observed_delta_t(instant),
        observed matches Some(o) ==> o.month_nanoseconds > 0 && (instant.nanosecond
            < 1_000_000_000 ==> o.elapsed_nanoseconds < o.month_nanoseconds),
{
    let index: i64 = (instant.date.year as i64 - OBSERVED_BASE_YEAR as i64) * 12 + (
    instant.date.month as i64 - OBSERVED_BASE_MONTH as i64);
    if index < 0 || index + 1 >= OBSERVED_DELTA_T.len() as i64 {
        return None;
    }
    let index = index as usize;
    let seconds_from_midnight: u64 = instant.hour as u64 * 3600 + instant.minute as u64 * 60
        + instant.second as u64;
    let elapsed: u64 = (instant.date.day as u64 - 1) * NANOSECONDS_PER_DAY + seconds_from_midnight
        * 1_000_000_000 + instant.nanosecond as u64;
    let days = days_in_month(instant.date.year, instant.date.month);
    Some(
        ObservedDeltaT {
            earlier: OBSERVED_DELTA_T[index],
            later: OBSERVED_DELTA_T[index + 1],
            elapsed_nanoseconds: elapsed,
            month_nanoseconds: days as u64 * NANOSECONDS_PER_DAY,
        },
    )
}

/// The observed table answers exactly for the months from February 1973 up to,
/// but excluding, April 2026, its last sample.
pub proof fn law_observed_window(instant: CivilDateTime)
    requires
        instant.is_valid(),
    ensures
        spec_observed_delta_t(instant) is Some <==> {
            let (y, m) = (instant.date.year as int, instant.date.month as int);
            &&& (y > 1973 || (y == 1973 && m >= 2))
            &&& (y < 2026 || (y == 2026 && m < 4))
        },
{
    assert(OBSERVED_DELTA_T@.len() == 639);
}

/// The samples bracketing an instant inside the window are the table entries of
/// its calendar month and of the following calendar month (January of the next
/// year after December); the interpolation spans the days from the first of the
/// month to the first of the next, and the elapsed part, added to the days of
/// the year before the month, is the instant's position in its year.
pub proof fn law_observed_brackets_month(instant: CivilDateTime)
    requires
        instant.is_valid(),
        spec_observed_delta_t(instant) is Some,
    ensures
        ({
            let o = spec_observed_delta_t(instant)->0;
            let (y, m) = (instant.date.year as int, instant.date.month as int);
            let (ny, nm) = if m == 12 {
                (y + 1, 1int)
            } else {
                (y, m + 1)
            };
            let month_days = if m == 12 {
                spec_days_in_year(y) - spec_days_before_month(y, 12)
            } else {
                spec_days_before_month(y, m + 1) - spec_days_before_month(y, m)
            };
            &&& o.earlier == OBSERVED_DELTA_T@[(y - 1973) * 12 + (m - 2)]
            &&& o.later == OBSERVED_DELTA_T@[(ny - 1973) * 12 + (nm - 2)]
            &&& o.month_nanoseconds == month_days * 86_400_000_000_000
            &&& spec_days_before_month(y, m) * 86_400_000_000_000 + o.elapsed_nanoseconds
                == spec_ordinal0(instant.date) * 86_400_000_000_000
                + instant.nanoseconds_from_midnight()
        }),
{
    crate::calendar::law_gregorian_leap_rule(instant.date.year as int);
    reveal_with_fuel(spec_days_before_month, 13);
}

/// An instant's position within its calendar year: `decimal_year = year +
/// elapsed_nanoseconds / year_nanoseconds`.
#[derive(Clone, Copy, Debug, PartialEq, Eq, Structural)]
pub struct YearFraction {
    /// Nanoseconds from January 1, 00:00 UTC to the instant.
    pub elapsed_nanoseconds: u64,
    /// Nanoseconds in the instant's year (365 or 366 days).
    pub year_nanoseconds: u64,
}

/// Position of the UTC instant `instant` within its year, honouring the
/// Gregorian leap rule: the day of the year plus the time of day, over the
/// length of the year.
pub fn year_fraction(instant: CivilDateTime) -> (fraction: YearFraction)
    requires
        instant.is_valid(),
    ensures
        fraction.elapsed_nanoseconds == spec_ordinal0(instant.date) * 86_400_000_000_000
            + instant.nanoseconds_from_midnight(),
        fraction.year_nanoseconds == spec_days_in_year(instant.date.year as int)
            * 86_400_000_000_000,
        instant.nanosecond < 1_000_000_000 ==> fraction.elapsed_nanoseconds
            < fraction.year_nanoseconds,
{
    let days_in_year: u64 = if is_gregorian_leap_year(instant.date.year) {
        366
    } else {
        365
    };
    let day_of_year = ordinal0(instant.date);
    let seconds_from_midnight: u64 = instant.hour as u64 * 3600 + instant.minute as u64 * 60
        + instant.second as u64;
    YearFraction {
        elapsed_nanoseconds: day_of_year as u64 * NANOSECONDS_PER_DAY + seconds_from_midnight
            * 1_000_000_000 + instant.nanosecond as u64,
        year_nanoseconds: days_in_year * NANOSECONDS_PER_DAY,
    }
}

} // verus!
