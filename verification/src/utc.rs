//! The current instant in UTC and its components.

use crate::calc::{calc_date, days_before_month, days_before_year, duration_since, is_date_at};
use crate::error::TimeError;
use crate::stamp::{format_timestamp, is_clock_timestamp, timestamp_text};
use std::time::SystemTime;
use vstd::prelude::*;

verus! {

/// The hour of the day, 0..=23, of the instant `total_seconds` after the epoch.
pub open spec fn hour_at(total_seconds: nat) -> nat {
    (total_seconds / 3600) % 24
}

/// The minute of the hour, 0..=59.
pub open spec fn minute_at(total_seconds: nat) -> nat {
    (total_seconds / 60) % 60
}

/// The second of the minute, 0..=59.
pub open spec fn second_at(total_seconds: nat) -> nat {
    total_seconds % 60
}

/// The seconds from the epoch to the first of January of `year`.
pub open spec fn seconds_before_year(year: int) -> int {
    days_before_year(year) * 86_400
}

/// The seconds from the first of January of `year` to the start of the given
/// day of that year.
pub open spec fn seconds_into_year(year: int, month: int, day: int) -> int {
    (days_before_month(year, month) + day - 1) * 86_400
}

/// An instant is the sum of its parts: the seconds of the years before its
/// date, the seconds of that year up to its day, and its hour, minute and
/// second of the day.
pub proof fn lemma_instant_is_sum_of_parts(total_seconds: nat, year: int, month: int, day: int)
    requires
        is_date_at(year, month, day, total_seconds),
    ensures
        seconds_before_year(year) + seconds_into_year(year, month, day) + hour_at(total_seconds)
            * 3600 + minute_at(total_seconds) * 60 + second_at(total_seconds) == total_seconds,
{
    let minutes = total_seconds / 60;
    let hours = total_seconds / 3600;
    let days = total_seconds / 86_400;
    assert(total_seconds == 60 * minutes + total_seconds % 60);
    assert(minutes / 60 == hours);
    assert(minutes == 60 * hours + minutes % 60);
    assert(hours / 24 == days);
    assert(hours == 24 * days + hours % 24);
}

/// The parts of one amount of time agree: of a count of nanoseconds, the
/// whole milliseconds hold the whole seconds, their last three digits are the
/// milliseconds past the second, and the field below the millisecond is what
/// the part past the second holds below the millisecond.
pub proof fn lemma_parts_of_one_amount(total_nanos: nat)
    ensures
        (total_nanos / 1_000_000) / 1_000 == total_nanos / 1_000_000_000,
        (total_nanos / 1_000_000) % 1_000 == (total_nanos % 1_000_000_000) / 1_000_000,
        total_nanos % 1_000_000 == (total_nanos % 1_000_000_000) % 1_000_000,
{
    let millis = total_nanos / 1_000_000;
    let seconds = total_nanos / 1_000_000_000;
    assert(total_nanos == 1_000_000 * millis + total_nanos % 1_000_000);
    assert(millis / 1_000 == seconds);
    assert(millis == 1_000 * seconds + millis % 1_000);
}

/// Whether `year` is the year of the date of an instant that 64 bits of
/// seconds can count.
pub open spec fn is_year_of_an_instant(year: int) -> bool {
    exists|total_seconds: u64, month: int, day: int|
        is_date_at(year, month, day, total_seconds as nat)
}

/// The hour of the day, 0..=23, of the instant `total_seconds` after the epoch.
pub fn hour_of_day(total_seconds: u64) -> (hour: u64)
    ensures
        hour == hour_at(total_seconds as nat),
        hour < 24,
{
    ((total_seconds / 3600) % 24 + 24) % 24
}

/// The minute of the hour, 0..=59, of the instant `total_seconds` after the epoch.
pub fn minute_of_hour(total_seconds: u64) -> (minute: u64)
    ensures
        minute == minute_at(total_seconds as nat),
        minute < 60,
{
    (total_seconds / 60) % 60
}

/// The second of the minute, 0..=59, of the instant `total_seconds` after the epoch.
pub fn second_of_minute(total_seconds: u64) -> (second: u64)
    ensures
        second == second_at(total_seconds as nat),
        second < 60,
{
    total_seconds % 60
}

/// The milliseconds past the whole second, 0..=999, of a count of milliseconds.
pub fn millis_component(total_millis: u128) -> (millis: u64)
    ensures
        millis == total_millis % 1000,
{
    (total_millis % 1000) as u64
}

/// What is left of a count of nanoseconds below the millisecond: the count
/// modulo 1 000 000, a value of at most six digits. This is no nanosecond of
/// the second.
pub fn nanos_component(total_nanos: u128) -> (nanos: u64)
    ensures
        nanos == total_nanos % 1_000_000,
{
    (total_nanos % 1_000_000) as u64
}

/// The current instant, as the host clock reports it.
pub fn utc_now() -> (now: SystemTime) {
    SystemTime::now()
}

/// Whole seconds from the epoch to now.
pub fn utc_ts_sec() -> (seconds: Result<u64, TimeError>)
    ensures
        seconds matches Err(e) ==> e == TimeError::ClockBeforeEpoch,
{
    match duration_since() {
        Ok(elapsed) => Ok(elapsed.as_secs()),
        Err(e) => Err(e),
    }
}

/// Whole milliseconds from the epoch to now.
pub fn utc_ts_millis() -> (millis: Result<u128, TimeError>)
    ensures
        millis matches Err(e) ==> e == TimeError::ClockBeforeEpoch,
{
    match duration_since() {
        Ok(elapsed) => Ok(elapsed.as_millis()),
        Err(e) => Err(e),
    }
}

/// Nanoseconds from the epoch to now.
pub fn utc_ts_nanos() -> (nanos: Result<u128, TimeError>)
    ensures
        nanos matches Err(e) ==> e == TimeError::ClockBeforeEpoch,
{
    match duration_since() {
        Ok(elapsed) => Ok(elapsed.as_nanos()),
        Err(e) => Err(e),
    }
}

/// The current year.
pub fn get_year() -> (year: Result<u64, TimeError>)
    ensures
        year matches Ok(y) ==> y >= 1970 && is_year_of_an_instant(y as int),
        year matches Err(e) ==> e == TimeError::ClockBeforeEpoch,
{
    match utc_ts_sec() {
        Ok(seconds) => Ok(calc_date(seconds).0),
        Err(e) => Err(e),
    }
}

/// The current month, 1..=12.
pub fn get_month() -> (month: Result<u64, TimeError>)
    ensures
        month matches Ok(m) ==> 1 <= m <= 12,
        month matches Err(e) ==> e == TimeError::ClockBeforeEpoch,
{
    match utc_ts_sec() {
        Ok(seconds) => Ok(calc_date(seconds).1),
        Err(e) => Err(e),
    }
}

/// The current day of the month, 1..=31.
pub fn get_day() -> (day: Result<u64, TimeError>)
    ensures
        day matches Ok(d) ==> 1 <= d <= 31,
        day matches Err(e) ==> e == TimeError::ClockBeforeEpoch,
{
    match utc_ts_sec() {
        Ok(seconds) => Ok(calc_date(seconds).2),
        Err(e) => Err(e),
    }
}

/// The current hour of the day, 0..=23.
pub fn get_hour() -> (hour: Result<u64, TimeError>)
    ensures
        hour matches Ok(h) ==> h < 24,
        hour matches Err(e) ==> e == TimeError::ClockBeforeEpoch,
{
    match utc_ts_sec() {
        Ok(seconds) => Ok(hour_of_day(seconds)),
        Err(e) => Err(e),
    }
}

/// The current minute of the hour, 0..=59.
pub fn get_minute() -> (minute: Result<u64, TimeError>)
    ensures
        minute matches Ok(m) ==> m < 60,
        minute matches Err(e) ==> e == TimeError::ClockBeforeEpoch,
{
    match utc_ts_sec() {
        Ok(seconds) => Ok(minute_of_hour(seconds)),
        Err(e) => Err(e),
    }
}

/// The current second of the minute, 0..=59.
pub fn get_second() -> (second: Result<u64, TimeError>)
    ensures
        second matches Ok(s) ==> s < 60,
        second matches Err(e) ==> e == TimeError::ClockBeforeEpoch,
{
    match utc_ts_sec() {
        Ok(seconds) => Ok(second_of_minute(seconds)),
        Err(e) => Err(e),
    }
}

/// The milliseconds past the current whole second, 0..=999.
pub fn get_millis() -> (millis: Result<u64, TimeError>)
    ensures
        millis matches Ok(m) ==> m < 1000,
        millis matches Err(e) ==> e == TimeError::ClockBeforeEpoch,
{
    match utc_ts_millis() {
        Ok(total) => Ok(millis_component(total)),
        Err(e) => Err(e),
    }
}

/// The current count of nanoseconds modulo 1 000 000, 0..=999 999.
pub fn get_nanos() -> (nanos: Result<u64, TimeError>)
    ensures
        nanos matches Ok(n) ==> n < 1_000_000,
        nanos matches Err(e) ==> e == TimeError::ClockBeforeEpoch,
{
    match utc_ts_nanos() {
        Ok(total) => Ok(nanos_component(total)),
        Err(e) => Err(e),
    }
}

/// The current instant in UTC as timestamp text,
/// `YYYY-MM-DD-HH-mm-SS-mmm-nnnnnn`. Each field comes from a clock reading of
/// its own, so a text built across a tick of the clock may mix two instants.
pub fn format_utc_ts() -> (text: Result<String, TimeError>)
    ensures
        text matches Ok(t) ==> is_clock_timestamp(t@),
        text matches Err(e) ==> e == TimeError::ClockBeforeEpoch,
{
    let year: u64 = match get_year() {
        Ok(year) => year,
        Err(e) => { return Err(e); },
    };
    let month: u64 = match get_month() {
        Ok(month) => month,
        Err(e) => { return Err(e); },
    };
    let day: u64 = match get_day() {
        Ok(day) => day,
        Err(e) => { return Err(e); },
    };
    let hour: u64 = match get_hour() {
        Ok(hour) => hour,
        Err(e) => { return Err(e); },
    };
    let minute: u64 = match get_minute() {
        Ok(minute) => minute,
        Err(e) => { return Err(e); },
    };
    let second: u64 = match get_second() {
        Ok(second) => second,
        Err(e) => { return Err(e); },
    };
    let millis: u64 = match get_millis() {
        Ok(millis) => millis,
        Err(e) => { return Err(e); },
    };
    let nanos: u64 = match get_nanos() {
        Ok(nanos) => nanos,
        Err(e) => { return Err(e); },
    };
    let text = format_timestamp(year, month, day, hour, minute, second, millis, nanos);
    assert(text@ == timestamp_text(
        year as nat,
        month as nat,
        day as nat,
        hour as nat,
        minute as nat,
        second as nat,
        millis as nat,
        nanos as nat,
    ));
    Ok(text)
}

} // verus!
