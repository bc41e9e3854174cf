//! Orthodox Easter, by the Julian rules, given on the Gregorian calendar.
use vstd::prelude::*;
use crate::truncated::{trunc_div, trunc_rem};

verus! {

/// Age of the moon under the Julian lunar cycle.
pub open spec fn julian_epact(year: int) -> int {
    trunc_rem(19 * trunc_rem(year, 19) + 15, 30)
}

/// Days from the paschal full moon to the Sunday after it, less one.
pub open spec fn julian_weekday_offset(year: int) -> int {
    trunc_rem(
        2 * trunc_rem(year, 4) + 4 * trunc_rem(year, 7) - julian_epact(year) + 34,
        7,
    )
}

/// Month of Easter on the Julian calendar.
pub open spec fn julian_month(year: int) -> int {
    trunc_div(julian_epact(year) + julian_weekday_offset(year) + 114, 31)
}

/// Day of Easter on the Julian calendar.
pub open spec fn julian_day(year: int) -> int {
    trunc_rem(julian_epact(year) + julian_weekday_offset(year) + 114, 31) + 1
}

/// Orthodox Easter as (month, day) on the Gregorian calendar: the Julian date
/// moved thirteen days on, into the next month where it passes the end of
/// March or April.
pub open spec fn julian_easter_date(year: int) -> (int, int) {
    let month = julian_month(year);
    let day = julian_day(year) + 13;
    if month == 3 {
        if day > 31 {
            (4, day % 31)
        } else {
            (3, day)
        }
    } else if month == 4 {
        if day > 30 {
            (5, day % 30)
        } else {
            (4, day)
        }
    } else {
        (month, day)
    }
}

/// Computes (month, day) of Orthodox Easter in `year`, on the Gregorian
/// calendar. The thirteen days between the calendars hold from 1900 to 2099.
pub fn julian_easter(year: i32) -> (r: (i32, i32))
    ensures
        r.0 == julian_easter_date(year as int).0,
        r.1 == julian_easter_date(year as int).1,
{
    let a: i32 = year % 4;
    let b: i32 = year % 7;
    let c: i32 = year % 19;
    let d: i32 = (19 * c + 15) % 30;
    let e: i32 = (2 * a + 4 * b - d + 34) % 7;
    let month: i32 = (d + e + 114) / 31;
    let day: i32 = ((d + e + 114) % 31) + 1;
    // thirteen days on, to the Gregorian calendar
    match month {
        3 => if day + 13 > 31 {
            (4, (day + 13) % 31)
        } else {
            (month, day + 13)
        },
        4 => if day + 13 > 30 {
            (5, (day + 13) % 30)
        } else {
            (month, day + 13)
        },
        _ => (month, day + 13),
    }
}

} // verus!
