//! UTC timestamps in the `YYYY-MM-DDTHH:MM:SSZ` form, computed from seconds
//! since the Unix epoch with the proleptic Gregorian calendar.

use crate::text::{padded_decimal, push_char, push_padded};
use std::time::{Duration, SystemTime, SystemTimeError};
use vstd::prelude::*;

verus! {

pub const SECS_PER_MIN: u64 = 60;

pub const SECS_PER_HOUR: u64 = 3600;

pub const SECS_PER_DAY: u64 = 86400;

pub const EPOCH_YEAR: u64 = 1970;

pub open spec fn is_leap_year(year: int) -> bool {
    (year % 4 == 0 && year % 100 != 0) || year % 400 == 0
}

pub open spec fn year_length(year: int) -> int {
    if is_leap_year(year) {
        366
    } else {
        365
    }
}

/// Days in `month` (1 for January up to 12 for December) of `year`.
pub open spec fn month_length(year: int, month: int) -> int {
    if month == 2 {
        if is_leap_year(year) {
            29
        } else {
            28
        }
    } else if month == 4 || month == 6 || month == 9 || month == 11 {
        30
    } else {
        31
    }
}

/// The year holding the day that lies `days` days after January 1 of `year`,
/// and the zero-based position of that day within its year.
pub open spec fn year_and_day(days: nat, year: nat) -> (nat, nat)
    decreases days,
{
    if days < year_length(year as int) {
        (year, days)
    } else {
        year_and_day((days - year_length(year as int)) as nat, year + 1)
    }
}

/// The month holding the zero-based day `day` counted from the first day of
/// `month` in `year`, and the zero-based position of the day in that month.
/// December takes whatever is left.
pub open spec fn month_and_day(year: nat, day: nat, month: nat) -> (nat, nat)
    decreases 12 - month,
{
    if month >= 12 || day < month_length(year as int, month as int) {
        (month, day)
    } else {
        month_and_day(year, (day - month_length(year as int, month as int)) as nat, month + 1)
    }
}

/// The calendar date and time of day of an instant, `secs` seconds after
/// 1970-01-01T00:00:00Z: year, month (1-12), day of month (from 1), hour,
/// minute, second.
pub open spec fn civil_time(secs: nat) -> (nat, nat, nat, nat, nat, nat) {
    let (year, day_of_year) = year_and_day(secs / 86400, 1970);
    let (month, day) = month_and_day(year, day_of_year, 1);
    let t = secs % 86400;
    (year, month, day + 1, t / 3600, (t % 3600) / 60, t % 60)
}

/// The text `YYYY-MM-DDTHH:MM:SSZ` of an instant given in seconds since the
/// epoch; the year takes more than four digits when it needs them.
pub open spec fn iso_timestamp(secs: nat) -> Seq<char> {
    let (year, month, day, hour, minute, second) = civil_time(secs);
    padded_decimal(year, 4) + seq!['-'] + padded_decimal(month, 2) + seq!['-'] + padded_decimal(
        day,
        2,
    ) + seq!['T'] + padded_decimal(hour, 2) + seq![':'] + padded_decimal(minute, 2) + seq![':']
        + padded_decimal(second, 2) + seq!['Z']
}

proof fn lemma_year_and_day_in_year(days: nat, year: nat)
    ensures
        year_and_day(days, year).1 < year_length(year_and_day(days, year).0 as int),
    decreases days,
{
    if days >= year_length(year as int) {
        lemma_year_and_day_in_year((days - year_length(year as int)) as nat, year + 1);
    }
}

/// Every instant has a real date and time: a month from 1 to 12, a day
/// that the month has, and a time of day within 24 hours.
pub proof fn lemma_civil_time_is_valid(secs: nat)
    ensures
        ({
            let (year, month, day, hour, minute, second) = civil_time(secs);
            &&& 1 <= month <= 12
            &&& 1 <= day <= month_length(year as int, month as int)
            &&& hour < 24 && minute < 60 && second < 60
        }),
{
    let (year, day_of_year) = year_and_day(secs / 86400, 1970);
    lemma_year_and_day_in_year(secs / 86400, 1970);
    reveal_with_fuel(month_and_day, 13);
    assert(month_and_day(year, day_of_year, 1).0 <= 12);
}

fn leap_year(year: u64) -> (r: bool)
    ensures
        r == is_leap_year(year as int),
{
    (year % 4 == 0 && year % 100 != 0) || year % 400 == 0
}

fn days_in_year(year: u64) -> (r: u64)
    ensures
        r == year_length(year as int),
{
    if leap_year(year) {
        366
    } else {
        365
    }
}

fn days_in_month(year: u64, month: u64) -> (r: u64)
    ensures
        r == month_length(year as int, month as int),
{
    if month == 2 {
        if leap_year(year) {
            29
        } else {
            28
        }
    } else if month == 4 || month == 6 || month == 9 || month == 11 {
        30
    } else {
        31
    }
}

/// Renders an instant, given in whole seconds since the Unix epoch, as
/// `YYYY-MM-DDTHH:MM:SSZ` in UTC.
pub fn chrono_lite_from_secs(secs: u64) -> (r: String)
    ensures
        r@ == iso_timestamp(secs as nat),
{
    let time_of_day = secs % SECS_PER_DAY;
    let hours = time_of_day / SECS_PER_HOUR;
    let minutes = (time_of_day % SECS_PER_HOUR) / SECS_PER_MIN;
    let seconds = time_of_day % SECS_PER_MIN;

    let total_days = secs / SECS_PER_DAY;
    let mut days = total_days;
    let mut year: u64 = EPOCH_YEAR;
    while days >= days_in_year(year)
        invariant
            days <= total_days,
            year <= 1970 + (total_days - days),
            total_days == secs / 86400,
            year_and_day(days as nat, year as nat) == year_and_day(total_days as nat, 1970),
        decreases days,
    {
        days = days - days_in_year(year);
        year = year + 1;
    }
    let mut month: u64 = 1;
    while month < 12 && days >= days_in_month(year, month)
        invariant
            1 <= month <= 12,
            days < year_length(year as int),
            month_and_day(year as nat, days as nat, month as nat) == month_and_day(
                year as nat,
                year_and_day(total_days as nat, 1970).1,
                1,
            ),
            year_and_day(total_days as nat, 1970).0 == year,
        decreases 12 - month,
    {
        days = days - days_in_month(year, month);
        month = month + 1;
    }
    let day = days + 1;

    let mut out = String::new();
    push_padded(&mut out, year, 4);
    push_char(&mut out, '-');
    push_padded(&mut out, month, 2);
    push_char(&mut out, '-');
    push_padded(&mut out, day, 2);
    push_char(&mut out, 'T');
    push_padded(&mut out, hours, 2);
    push_char(&mut out, ':');
    push_padded(&mut out, minutes, 2);
    push_char(&mut out, ':');
    push_padded(&mut out, seconds, 2);
    push_char(&mut out, 'Z');
    assert(out@ =~= iso_timestamp(secs as nat));
    out
}

/// `std::time::SystemTime`, carried through opaque.
#[verifier::external_type_specification]
#[verifier::external_body]
pub struct ExSystemTime(SystemTime);

/// `std::time::SystemTimeError`, carried through opaque.
#[verifier::external_type_specification]
#[verifier::external_body]
pub struct ExSystemTimeError(SystemTimeError);

/// Relies on `SystemTime::now`: the clock's reading, of which nothing is
/// known here.
pub assume_specification[ SystemTime::now ]() -> SystemTime;

/// Relies on `SystemTime::duration_since`: the span from `earlier` to `t`, or
/// an error when `earlier` is the later one; nothing is known of the span.
pub assume_specification[ SystemTime::duration_since ](
    t: &SystemTime,
    earlier: SystemTime,
) -> Result<Duration, SystemTimeError>;

/// Relies on `Duration::as_secs`: the whole seconds of a span, of which
/// nothing is known here.
pub assume_specification[ Duration::as_secs ](d: &Duration) -> u64;

/// Relies on `std::time::UNIX_EPOCH`: the instant 1970-01-01T00:00:00Z.
#[verifier::external_body]
fn unix_epoch() -> SystemTime {
    std::time::UNIX_EPOCH
}

/// The current time as `YYYY-MM-DDTHH:MM:SSZ`; a clock set before the
/// epoch reads as the epoch itself.
pub fn chrono_lite_now() -> (r: String)
    ensures
        exists|secs: u64| r@ == iso_timestamp(secs as nat),
{
    let now = SystemTime::now();
    let secs: u64 = match now.duration_since(unix_epoch()) {
        Ok(d) => d.as_secs(),
        Err(_) => 0,
    };
    chrono_lite_from_secs(secs)
}

} // verus!
