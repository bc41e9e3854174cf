//! What holds of both dates over the years 1900 to 2099, where the Gregorian
//! calendar runs thirteen days ahead of the Julian one.
use vstd::prelude::*;
use vstd::arithmetic::div_mod::{lemma_fundamental_div_mod, lemma_mod_multiples_basic};
use crate::gregorian::{
    golden_number, century, leap_correction, moon_correction, sunday_key, plain_epact,
    paschal_full_moon, easter_day_number, gregorian_easter_date,
};
use crate::julian::{julian_epact, julian_weekday_offset, julian_month, julian_day, julian_easter_date};

verus! {

/// Day of a date in March, April or May, counted from the first of March
/// (the first of April is 32, the first of May 62).
pub open spec fn day_number(date: (int, int)) -> int {
    if date.0 == 3 {
        date.1
    } else if date.0 == 4 {
        31 + date.1
    } else {
        61 + date.1
    }
}

/// Whether `date` is a real day of March, April or May.
pub open spec fn is_spring_date(date: (int, int)) -> bool {
    ||| date.0 == 3 && 1 <= date.1 <= 31
    ||| date.0 == 4 && 1 <= date.1 <= 30
    ||| date.0 == 5 && 1 <= date.1 <= 31
}

/// Years whose Gregorian full moon falls in March but whose Sunday after it
/// falls in April: the rule picks the month by the full moon, so these come
/// out as a March day past the thirty-first.
pub open spec fn has_late_march_sunday(year: int) -> bool {
    paschal_full_moon(year) <= 31 && easter_day_number(year) > 31
}

proof fn lemma_gregorian_terms(year: int)
    requires
        1900 <= year <= 2099,
    ensures
        golden_number(year) == year % 19 + 1,
        leap_correction(year) == 3,
        moon_correction(year) == 1,
        sunday_key(year) == (5 * year) / 4 - 13,
        plain_epact(year) == (11 * (year % 19) + 29) % 30,
{
    assert(century(year) == 20 || century(year) == 21);
}

proof fn lemma_full_moon_bounds(year: int)
    requires
        1900 <= year <= 2099,
    ensures
        21 <= paschal_full_moon(year) <= 49,
        paschal_full_moon(year) + 1 <= easter_day_number(year) <= paschal_full_moon(year) + 7,
{
    lemma_gregorian_terms(year);
    let r = year % 19;
    assert(0 <= r < 19);
    assert(plain_epact(year) != 23) by {
        assert(r == 0 || r == 1 || r == 2 || r == 3 || r == 4 || r == 5 || r == 6 || r == 7
            || r == 8 || r == 9 || r == 10 || r == 11 || r == 12 || r == 13 || r == 14
            || r == 15 || r == 16 || r == 17 || r == 18);
    }
}

/// For the years 1900 to 2099, Western Easter falls between the twenty-second
/// of March and the twenty-fifth of April, on a real day of its month, save in
/// the years whose full moon is in March and whose Sunday after it is in April.
pub proof fn lemma_gregorian_easter_window(year: int)
    requires
        1900 <= year <= 2099,
        !has_late_march_sunday(year),
    ensures
        ({
            let date = gregorian_easter_date(year);
            ||| date.0 == 3 && 22 <= date.1 <= 31
            ||| date.0 == 4 && 1 <= date.1 <= 25
        }),
{
    lemma_full_moon_bounds(year);
}

proof fn lemma_julian_terms(year: int)
    requires
        0 <= year,
    ensures
        julian_epact(year) == (19 * (year % 19) + 15) % 30,
        julian_weekday_offset(year) == (2 * (year % 4) + 4 * (year % 7) - julian_epact(year)
            + 34) % 7,
        day_number((julian_month(year), julian_day(year))) == julian_epact(year)
            + julian_weekday_offset(year) + 22,
        day_number(julian_easter_date(year)) == day_number(
            (julian_month(year), julian_day(year)),
        ) + 13,
        is_spring_date(julian_easter_date(year)),
        julian_easter_date(year).0 != 5 || julian_easter_date(year).1 <= 9,
{
    let d = julian_epact(year);
    let e = julian_weekday_offset(year);
    assert(0 <= d < 30 && 0 <= e < 7);
    assert(julian_month(year) == (d + e + 114) / 31);
    assert(julian_day(year) == (d + e + 114) % 31 + 1);
}

proof fn lemma_same_weekday(year: int)
    requires
        1900 <= year <= 2099,
    ensures
        (day_number(julian_easter_date(year)) - easter_day_number(year)) % 7 == 0,
{
    lemma_gregorian_terms(year);
    lemma_julian_terms(year);
    let k = year / 4;
    let a = year % 4;
    let m = year / 7;
    let b = year % 7;
    lemma_fundamental_div_mod(year, 4);
    lemma_fundamental_div_mod(year, 7);
    assert((5 * year) / 4 == 5 * k + a) by {
        lemma_fundamental_div_mod(5 * year, 4);
    }
    let n = paschal_full_moon(year);
    let x = sunday_key(year) + n;
    lemma_fundamental_div_mod(x, 7);
    let d = julian_epact(year);
    let y = 2 * a + 4 * b - d + 34;
    lemma_fundamental_div_mod(y, 7);
    let w = x / 7 + y / 7 - 7 - 3 * k - a + 4 * m;
    assert(day_number(julian_easter_date(year)) - easter_day_number(year) == -w * 7);
    lemma_mod_multiples_basic(-w, 7);
}

proof fn lemma_julian_full_moon_not_earlier(year: int)
    requires
        1900 <= year <= 2099,
    ensures
        paschal_full_moon(year) <= julian_epact(year) + 34,
{
    lemma_gregorian_terms(year);
    lemma_julian_terms(year);
    let r = year % 19;
    assert(r == 0 || r == 1 || r == 2 || r == 3 || r == 4 || r == 5 || r == 6 || r == 7 || r
        == 8 || r == 9 || r == 10 || r == 11 || r == 12 || r == 13 || r == 14 || r == 15 || r
        == 16 || r == 17 || r == 18);
}

/// The Gregorian date of Western Easter as a day counted from the first of
/// March: the Sunday after the paschal full moon, whichever month it names.
proof fn lemma_gregorian_day_number(year: int)
    ensures
        day_number(gregorian_easter_date(year)) == easter_day_number(year),
{
}

/// For the years 1900 to 2099, Orthodox Easter is a real day of March, April
/// or May, and never comes before Western Easter of the same year.
pub proof fn lemma_julian_easter_window(year: int)
    requires
        1900 <= year <= 2099,
    ensures
        is_spring_date(julian_easter_date(year)),
        day_number(julian_easter_date(year)) >= day_number(gregorian_easter_date(year)),
{
    lemma_julian_terms(year);
    lemma_full_moon_bounds(year);
    lemma_same_weekday(year);
    lemma_julian_full_moon_not_earlier(year);
    lemma_gregorian_day_number(year);
}

/// For the years 1900 to 2099: Western Easter is in March or April and
/// Orthodox Easter in March, April or May; Orthodox Easter is the Julian
/// calendar's date moved on by thirteen days; and the two dates lie whole
/// weeks apart, both being Sundays.
pub proof fn lemma_easter_cross_check(year: int)
    requires
        1900 <= year <= 2099,
    ensures
        gregorian_easter_date(year).0 == 3 || gregorian_easter_date(year).0 == 4,
        julian_easter_date(year).0 == 3 || julian_easter_date(year).0 == 4
            || julian_easter_date(year).0 == 5,
        day_number(julian_easter_date(year)) == day_number(
            (julian_month(year), julian_day(year)),
        ) + 13,
        (day_number(julian_easter_date(year)) - day_number(gregorian_easter_date(year))) % 7
            == 0,
{
    let western = gregorian_easter_date(year);
    let orthodox = julian_easter_date(year);
    assert(western.0 == 3 || western.0 == 4);
    assert(orthodox.0 == 3 || orthodox.0 == 4 || orthodox.0 == 5) by {
        lemma_julian_terms(year);
    }
    assert(day_number(orthodox) == day_number((julian_month(year), julian_day(year))) + 13)
        by {
        lemma_julian_terms(year);
    }
    assert((day_number(orthodox) - day_number(western)) % 7 == 0) by {
        lemma_same_weekday(year);
        lemma_gregorian_day_number(year);
    }
}

/// Both calculators depend on the year alone: two calls with one year give
/// one date.
pub proof fn lemma_easter_calls_agree(
    year: i32,
    first: (i32, i32),
    second: (i32, i32),
    first_julian: (i32, i32),
    second_julian: (i32, i32),
)
    requires
        first.0 == gregorian_easter_date(year as int).0,
        first.1 == gregorian_easter_date(year as int).1,
        second.0 == gregorian_easter_date(year as int).0,
        second.1 == gregorian_easter_date(year as int).1,
        first_julian.0 == julian_easter_date(year as int).0,
        first_julian.1 == julian_easter_date(year as int).1,
        second_julian.0 == julian_easter_date(year as int).0,
        second_julian.1 == julian_easter_date(year as int).1,
    ensures
        first == second,
        first_julian == second_julian,
{
}

} // verus!
