use bynger::clock::{
    day_number, moment, moment_of_civil, time_of_day, time_of_day_after, weekday, year_of_century,
    MAX_DAY, MAX_MOMENT, MIN_DAY, MIN_MOMENT,
};
use bynger::text::{decimal_string, digit_str, two_digit_string};
use chrono::{DateTime, Datelike, NaiveDate};

#[test]
fn the_range_is_the_years_one_to_9999() {
    assert_eq!(moment_of_civil(1, 1, 1, 0, 0, 0), Some(MIN_MOMENT));
    assert_eq!(moment_of_civil(9999, 12, 31, 23, 59, 59), Some(MAX_MOMENT));
    assert_eq!(moment_of_civil(0, 12, 31, 23, 59, 59), None);
    assert_eq!(moment_of_civil(10000, 1, 1, 0, 0, 0), None);
    assert_eq!(day_number(MIN_MOMENT), MIN_DAY);
    assert_eq!(day_number(MAX_MOMENT), MAX_DAY);
}

#[test]
fn civil_dates_that_do_not_exist() {
    assert_eq!(moment_of_civil(2023, 2, 29, 0, 0, 0), None);
    assert_eq!(moment_of_civil(2024, 13, 1, 0, 0, 0), None);
    assert_eq!(moment_of_civil(2024, 1, 1, 24, 0, 0), None);
    assert_eq!(moment_of_civil(2024, 1, 1, 8, 0, 0), Some(1_704_096_000));
}

#[test]
fn parts_of_a_moment() {
    assert_eq!(day_number(0), 0);
    assert_eq!(day_number(-1), -1);
    assert_eq!(time_of_day(-1), 86_399);
    assert_eq!(day_number(86_400), 1);
    assert_eq!(time_of_day(1_704_096_000), 8 * 3600);
    assert_eq!(moment(19_723, 28_800), 1_704_096_000);
    assert_eq!(day_number(i64::MIN), i64::MIN.div_euclid(86_400));
    assert_eq!(time_of_day(i64::MAX), i64::MAX.rem_euclid(86_400) as u32);
    assert_eq!(time_of_day_after(1_704_096_000, 30), 8 * 3600 + 1800);
    assert_eq!(time_of_day_after(1_704_096_000, 16 * 60 + 1), 60);
}

#[test]
fn weekdays_count_from_monday() {
    assert_eq!(weekday(0), 3);
    assert_eq!(weekday(-1), 2);
    assert_eq!(weekday(1_704_096_000), 0);
    for t in [MIN_MOMENT, -86_401, -1, 0, 951_782_400, 1_704_096_000, 4_102_444_800, MAX_MOMENT] {
        let dt = DateTime::from_timestamp(t, 0).unwrap();
        assert_eq!(weekday(t), dt.weekday().num_days_from_monday() as usize);
        let epoch = NaiveDate::from_ymd_opt(1970, 1, 1).unwrap();
        assert_eq!(day_number(t), dt.date_naive().signed_duration_since(epoch).num_days());
    }
}

#[test]
fn numbers_as_text() {
    assert_eq!(digit_str(7), "7");
    assert_eq!(decimal_string(0), "0");
    assert_eq!(decimal_string(9), "9");
    assert_eq!(decimal_string(10), "10");
    assert_eq!(decimal_string(120_045), "120045");
    assert_eq!(decimal_string(usize::MAX), usize::MAX.to_string());
    assert_eq!(two_digit_string(0), "00");
    assert_eq!(two_digit_string(7), "07");
    assert_eq!(two_digit_string(42), "42");
    assert_eq!(two_digit_string(2024), "24");
    assert_eq!(year_of_century(2024), 24);
    assert_eq!(year_of_century(-1), 99);
}
