//! Western Easter, by the Gregorian rules (Knuth, TAOCP vol. 1, 1.3.2, ex. 14).
use vstd::prelude::*;
use crate::truncated::{trunc_div, trunc_rem};

verus! {

/// Place of the year in the nineteen-year lunar cycle, from 1.
pub open spec fn golden_number(year: int) -> int {
    trunc_rem(year, 19) + 1
}

/// The century the year counts in, from 1 for the years 0 to 99.
pub open spec fn century(year: int) -> int {
    trunc_div(year, 100) + 1
}

/// Leap days that the Gregorian calendar has dropped since the Julian one.
pub open spec fn leap_correction(year: int) -> int {
    trunc_div(3 * century(year), 4) - 12
}

/// Drift of the mean lunar orbit against the nineteen-year cycle.
pub open spec fn moon_correction(year: int) -> int {
    trunc_div(8 * century(year) + 5, 25) - 5
}

/// A value whose remainder by seven places the weekdays of March in the year.
pub open spec fn sunday_key(year: int) -> int {
    trunc_div(5 * year, 4) - leap_correction(year) - 10
}

/// Age of the moon on the first of January, before the two special cases.
pub open spec fn plain_epact(year: int) -> int {
    let e = trunc_rem(
        11 * golden_number(year) + 20 + moon_correction(year) - leap_correction(year),
        30,
    );
    if e < 0 {
        e + 30
    } else {
        e
    }
}

/// Age of the moon on the first of January, one more where the golden number
/// exceeds eleven or the plain epact is twenty-four.
pub open spec fn epact(year: int) -> int {
    let e = plain_epact(year);
    if golden_number(year) > 11 || e == 24 {
        e + 1
    } else {
        e
    }
}

/// Paschal full moon, as a day counted from the first of March (32 is the
/// first of April); never before the twenty-first of March.
pub open spec fn paschal_full_moon(year: int) -> int {
    let n = 44 - epact(year);
    if n < 21 {
        n + 30
    } else {
        n
    }
}

/// The Sunday after the paschal full moon, counted from the first of March.
pub open spec fn easter_day_number(year: int) -> int {
    let n = paschal_full_moon(year);
    n + 7 - trunc_rem(sunday_key(year) + n, 7)
}

/// Western Easter as (month, day): April where the full moon falls after the
/// thirty-first of March, March otherwise.
pub open spec fn gregorian_easter_date(year: int) -> (int, int) {
    if paschal_full_moon(year) > 31 {
        (4, easter_day_number(year) - 31)
    } else {
        (3, easter_day_number(year))
    }
}

/// Computes (month, day) of Western Easter in `year`.
///
/// The bound on `year` keeps `5 * year` within `i32`.
#[verifier::spinoff_prover]
#[verifier::rlimit(100)]
pub fn gregorian_easter(year: i32) -> (r: (i32, i32))
    requires
        -429_496_729 <= year <= 429_496_729,
    ensures
        r.0 == gregorian_easter_date(year as int).0,
        r.1 == gregorian_easter_date(year as int).1,
{
    let golden_number: i32 = (year % 19) + 1;
    let century: i32 = (year / 100) + 1;
    assert(-4_294_966 <= century <= 4_294_968);
    // leap days dropped since the Julian calendar
    let correction_x: i32 = (3 * century) / 4 - 12;
    // drift of the moon's orbit
    let correction_z: i32 = (8 * century + 5) / 25 - 5;
    assert(-3_221_237 <= correction_x <= 3_221_214);
    assert(-1_374_395 <= correction_z <= 1_374_385);
    let sunday: i32 = 5 * year / 4 - correction_x - 10;
    assert(sunday == self::sunday_key(year as int));
    let mut epact: i32 = (11 * golden_number + 20 + correction_z - correction_x) % 30;
    epact = if epact < 0 {
        epact + 30
    } else {
        epact
    };
    assert(epact == self::plain_epact(year as int));
    epact = if golden_number > 11 || epact == 24 {
        epact + 1
    } else {
        epact
    };
    assert(epact == self::epact(year as int));
    let mut full_moon: i32 = 44 - epact;
    // not before the twenty-first of March
    if full_moon < 21 {
        full_moon = full_moon + 30;
    }
    let easter_sunday: i32 = full_moon + 7 - (sunday + full_moon) % 7;
    if full_moon > 31 {
        (4, easter_sunday - 31)
    } else {
        (3, easter_sunday)
    }
}

} // verus!
