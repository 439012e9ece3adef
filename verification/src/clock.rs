//! Arithmetic on moments, days and times of day.
//!
//! A moment is a count of seconds since 1970-01-01T00:00:00 UTC, a day a
//! count of days since 1970-01-01, a time of day a count of seconds since
//! midnight. Weekdays are numbered from Monday (0) to Sunday (6).

use vstd::prelude::*;
use vstd::string::StringExecFns;
use chrono::{Datelike, Timelike};
use crate::text::{two_digit_string, two_digits};

verus! {

/// Seconds in one calendar day.
pub const SECONDS_PER_DAY: i64 = 86_400;

/// The day 0001-01-01.
pub const MIN_DAY: i64 = -719_162;

/// The day 9999-12-31.
pub const MAX_DAY: i64 = 2_932_896;

/// The moment 0001-01-01T00:00:00.
pub const MIN_MOMENT: i64 = -62_135_596_800;

/// The moment 9999-12-31T23:59:59.
pub const MAX_MOMENT: i64 = 253_402_300_799;

/// A day the library works with: one of the years 1 to 9999.
pub open spec fn valid_day(d: int) -> bool {
    MIN_DAY <= d <= MAX_DAY
}

/// A moment the library works with: one within the years 1 to 9999.
pub open spec fn valid_moment(t: int) -> bool {
    MIN_MOMENT <= t <= MAX_MOMENT
}

/// A time of day: fewer seconds than a day has.
pub open spec fn valid_time(s: int) -> bool {
    0 <= s < SECONDS_PER_DAY
}

/// The day on which moment `t` falls.
pub open spec fn day_of(t: int) -> int {
    t / (SECONDS_PER_DAY as int)
}

/// The seconds that have passed at moment `t` since midnight.
pub open spec fn second_of_day(t: int) -> int {
    t % (SECONDS_PER_DAY as int)
}

/// The moment at `secs` seconds after midnight of day `d`.
pub open spec fn moment_at(d: int, secs: int) -> int {
    d * SECONDS_PER_DAY + secs
}

/// The weekday of day `d`, Monday being 0. Day 0 was a Thursday.
pub open spec fn weekday_of_day(d: int) -> int {
    (d + 3) % 7
}

/// The weekday on which moment `t` falls, Monday being 0.
pub open spec fn weekday_of(t: int) -> int {
    weekday_of_day(day_of(t))
}

/// A multiple of seven days that lifts every 64-bit moment above zero.
const LIFT_DAYS: u128 = 106_751_991_167_304;

/// `LIFT_DAYS` in seconds.
const LIFT_SECONDS: i128 = 9_223_372_036_855_065_600;

/// Whether a moment lies within the years 1 to 9999.
pub fn is_valid_moment(t: i64) -> (b: bool)
    ensures
        b == valid_moment(t as int),
{
    MIN_MOMENT <= t && t <= MAX_MOMENT
}

/// The day of a moment.
pub fn day_number(t: i64) -> (d: i64)
    ensures
        d == day_of(t as int),
        valid_moment(t as int) ==> valid_day(d as int),
{
    let lifted: u128 = ((t as i128) + LIFT_SECONDS) as u128;
    let days: u128 = lifted / 86_400;
    ((days as i128) - (LIFT_DAYS as i128)) as i64
}

/// The time of day of a moment.
pub fn time_of_day(t: i64) -> (s: u32)
    ensures
        s == second_of_day(t as int),
        valid_time(s as int),
{
    let lifted: u128 = ((t as i128) + LIFT_SECONDS) as u128;
    (lifted % 86_400) as u32
}

/// The weekday of a moment, Monday being 0.
pub fn weekday(t: i64) -> (w: usize)
    ensures
        w == weekday_of(t as int),
        w < 7,
{
    let lifted: u128 = ((t as i128) + LIFT_SECONDS) as u128;
    let days: u128 = lifted / 86_400;
    ((days + 3) % 7) as usize
}

/// The moment at `secs` seconds after midnight of day `d`.
pub fn moment(d: i64, secs: u32) -> (t: i64)
    requires
        valid_day(d as int),
        valid_time(secs as int),
    ensures
        t == moment_at(d as int, secs as int),
        valid_moment(t as int),
{
    d * SECONDS_PER_DAY + (secs as i64)
}

/// The time of day `minutes` minutes after moment `t`.
pub fn time_of_day_after(t: i64, minutes: usize) -> (s: u32)
    ensures
        s == second_of_day(t + 60 * minutes),
        valid_time(s as int),
{
    let wide: i128 = (t as i128) + 60 * (minutes as i128);
    let lifted: u128 = (wide + LIFT_SECONDS) as u128;
    (lifted % 86_400) as u32
}

/// The year, month and day of the month on which moment `t` falls in the
/// proleptic Gregorian calendar, as chrono computes them.
pub uninterp spec fn civil_date(t: int) -> (int, int, int);

/// The moment of a civil date and time of day as chrono computes it, or
/// `None` where chrono knows no such date or time.
pub uninterp spec fn civil_moment(
    year: int,
    month: int,
    day: int,
    hour: int,
    minute: int,
    second: int,
) -> Option<int>;

/// Reads year, month and day of a moment from chrono:
/// `DateTime::from_timestamp`, then `date_naive` and the three getters of
/// `Datelike`. The contract names the result and says of it only that the
/// month is one of 1 to 12, as `Datelike::month` documents; chrono holds
/// every moment of the years 1 to 9999.
#[verifier::external_body]
pub(crate) fn civil_date_of(t: i64) -> (r: (i32, u32, u32))
    requires
        valid_moment(t as int),
    ensures
        (r.0 as int, r.1 as int, r.2 as int) == civil_date(t as int),
        1 <= r.1 <= 12,
{
    let date = chrono::DateTime::from_timestamp(t, 0).unwrap().date_naive();
    (date.year(), date.month(), date.day())
}

/// Asks chrono for the moment of a civil date and time:
/// `NaiveDate::from_ymd_opt`, `NaiveDate::and_hms_opt`, then
/// `NaiveDateTime::and_utc` and `DateTime::timestamp`. The contract only
/// names the result.
#[verifier::external_body]
pub(crate) fn civil_to_moment(year: i32, month: u32, day: u32, hour: u32, minute: u32, second: u32) -> (r:
    Option<i64>)
    ensures
        r is Some == civil_moment(
            year as int,
            month as int,
            day as int,
            hour as int,
            minute as int,
            second as int,
        ) is Some,
        r matches Some(t) ==> civil_moment(
            year as int,
            month as int,
            day as int,
            hour as int,
            minute as int,
            second as int,
        ) == Some(t as int),
{
    match chrono::NaiveDate::from_ymd_opt(year, month, day) {
        Some(date) => match date.and_hms_opt(hour, minute, second) {
            Some(at) => Some(at.and_utc().timestamp()),
            None => None,
        },
        None => None,
    }
}

/// The moment at which the day begins that chrono reads from a text of the
/// form `YYYY-MM-DD`, or `None` where chrono refuses the text.
pub uninterp spec fn parsed_date(text: Seq<char>) -> Option<int>;

/// The seconds after midnight of the time that chrono reads from a text of
/// the form `HH:MM`, or `None` where chrono refuses the text.
pub uninterp spec fn parsed_time(text: Seq<char>) -> Option<int>;

/// Reads a date of the form `YYYY-MM-DD` by chrono's
/// `NaiveDate::parse_from_str` and gives the moment at which that day
/// begins (`NaiveDate::and_time`, `NaiveDateTime::and_utc`,
/// `DateTime::timestamp`). The contract only names the result.
#[verifier::external_body]
fn read_date(text: &str) -> (r: Option<i64>)
    ensures
        r is Some == parsed_date(text@) is Some,
        r matches Some(t) ==> parsed_date(text@) == Some(t as int),
{
    match chrono::NaiveDate::parse_from_str(text, "%Y-%m-%d") {
        Ok(date) => Some(date.and_time(chrono::NaiveTime::MIN).and_utc().timestamp()),
        Err(_) => None,
    }
}

/// Reads a time of the form `HH:MM` by chrono's `NaiveTime::parse_from_str`
/// and gives its seconds after midnight
/// (`Timelike::num_seconds_from_midnight`). The contract only names the
/// result.
#[verifier::external_body]
fn read_time(text: &str) -> (r: Option<u32>)
    ensures
        r is Some == parsed_time(text@) is Some,
        r matches Some(s) ==> parsed_time(text@) == Some(s as int),
{
    match chrono::NaiveTime::parse_from_str(text, "%H:%M") {
        Ok(time) => Some(time.num_seconds_from_midnight()),
        Err(_) => None,
    }
}

/// What [`parse_day`] returns: the day of the date read, where a date is
/// read and lies within the years 1 to 9999.
pub open spec fn parsed_day(text: Seq<char>) -> Option<i64> {
    match parsed_date(text) {
        Some(t) => if valid_moment(t) {
            Some(day_of(t) as i64)
        } else {
            None
        },
        None => None,
    }
}

/// What [`parse_time`] returns: the time read, where one is read and it is a
/// time of day.
pub open spec fn parsed_time_of_day(text: Seq<char>) -> Option<u32> {
    match parsed_time(text) {
        Some(s) => if valid_time(s) {
            Some(s as u32)
        } else {
            None
        },
        None => None,
    }
}

/// The day that a text of the form `YYYY-MM-DD` names, if it names one
/// within the years 1 to 9999.
pub fn parse_day(text: &str) -> (r: Option<i64>)
    ensures
        r == parsed_day(text@),
        r matches Some(d) ==> valid_day(d as int),
{
    match read_date(text) {
        Some(t) => {
            if MIN_MOMENT <= t && t <= MAX_MOMENT {
                Some(day_number(t))
            } else {
                None
            }
        },
        None => None,
    }
}

/// The time of day that a text of the form `HH:MM` names, if it names one.
pub fn parse_time(text: &str) -> (r: Option<u32>)
    ensures
        r == parsed_time_of_day(text@),
        r matches Some(s) ==> valid_time(s as int),
{
    match read_time(text) {
        Some(s) => {
            if s < 86_400 {
                Some(s)
            } else {
                None
            }
        },
        None => None,
    }
}

/// What [`moment_of_civil`] returns: the moment of the civil date and time
/// where there is one within the years 1 to 9999.
pub open spec fn civil_moment_in_range(
    year: int,
    month: int,
    day: int,
    hour: int,
    minute: int,
    second: int,
) -> Option<i64> {
    match civil_moment(year, month, day, hour, minute, second) {
        Some(t) => if valid_moment(t) {
            Some(t as i64)
        } else {
            None
        },
        None => None,
    }
}

/// The moment of a civil date and time of day, if there is such a date and
/// it lies within the years 1 to 9999.
pub fn moment_of_civil(year: i32, month: u32, day: u32, hour: u32, minute: u32, second: u32) -> (r:
    Option<i64>)
    ensures
        r == civil_moment_in_range(
            year as int,
            month as int,
            day as int,
            hour as int,
            minute as int,
            second as int,
        ),
{
    match civil_to_moment(year, month, day, hour, minute, second) {
        Some(t) => {
            if MIN_MOMENT <= t && t <= MAX_MOMENT {
                Some(t)
            } else {
                None
            }
        },
        None => None,
    }
}

/// The date of moment `t` as month, day and two-digit year, each of two
/// digits, with slashes between.
pub open spec fn date_text(t: int) -> Seq<char> {
    let (year, month, day) = civil_date(t);
    two_digits(month as nat) + "/"@ + two_digits(day as nat) + "/"@ + two_digits(
        (year % 100) as nat,
    )
}

/// The hour of the twelve-hour clock at `secs` seconds after midnight.
pub open spec fn hour_of_twelve(secs: int) -> int {
    let hour = secs / 3600;
    if hour % 12 == 0 {
        12
    } else {
        hour % 12
    }
}

/// The time `secs` seconds after midnight on the twelve-hour clock: hour and
/// minute of two digits each, then `AM` or `PM`.
pub open spec fn time_text(secs: int) -> Seq<char> {
    two_digits(hour_of_twelve(secs) as nat) + ":"@ + two_digits(((secs / 60) % 60) as nat) + (
    if secs < 43_200 {
        " AM"@
    } else {
        " PM"@
    })
}

/// The year within its century.
pub fn year_of_century(year: i32) -> (y: usize)
    ensures
        y == year as int % 100,
{
    let lifted: u64 = ((year as i64) + 2_147_483_700) as u64;
    (lifted % 100) as usize
}

/// The time `secs` seconds after midnight on the twenty-four-hour clock:
/// hour and minute of two digits each.
pub open spec fn clock_text(secs: int) -> Seq<char> {
    two_digits((secs / 3600) as nat) + ":"@ + two_digits(((secs / 60) % 60) as nat)
}

/// A time of day as text on the twenty-four-hour clock, `HH:MM`.
pub fn clock_string(secs: u32) -> (s: String)
    requires
        valid_time(secs as int),
    ensures
        s@ == clock_text(secs as int),
{
    let mut s = two_digit_string((secs / 3600) as usize);
    s.append(":");
    s.append(two_digit_string(((secs / 60) % 60) as usize).as_str());
    s
}

/// The date of a moment as text, `MM/DD/YY`.
#[verifier::rlimit(50)]
pub fn date_string(t: i64) -> (s: String)
    requires
        valid_moment(t as int),
    ensures
        s@ == date_text(t as int),
{
    let (year, month, day): (i32, u32, u32) = civil_date_of(t);
    let month_text = two_digit_string(month as usize);
    let day_text = two_digit_string(day as usize);
    let year_text = two_digit_string(year_of_century(year));
    let mut s = month_text;
    s.append("/");
    s.append(day_text.as_str());
    s.append("/");
    s.append(year_text.as_str());
    s
}

/// A time of day as text on the twelve-hour clock, `hh:mm AM` or `hh:mm PM`.
pub fn time_string(secs: u32) -> (s: String)
    requires
        valid_time(secs as int),
    ensures
        s@ == time_text(secs as int),
{
    let hour: u32 = secs / 3600;
    let shown: u32 = if hour % 12 == 0 {
        12
    } else {
        hour % 12
    };
    let minute: u32 = (secs / 60) % 60;
    let mut s = two_digit_string(shown as usize);
    s.append(":");
    s.append(two_digit_string(minute as usize).as_str());
    if secs < 43_200 {
        s.append(" AM");
    } else {
        s.append(" PM");
    }
    s
}

} // verus!
