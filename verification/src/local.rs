//! The current instant in a zone and its components: the UTC instant moved by
//! the zone's whole hours, which the caller hands in.

use crate::calc::{calc_date, duration_since};
use crate::error::TimeError;
use crate::host::after_epoch;
use crate::stamp::{format_timestamp, is_clock_timestamp, timestamp_text};
use crate::utc::{
    get_millis, get_minute, get_nanos, get_second, hour_at, hour_of_day, is_year_of_an_instant,
    utc_ts_millis, utc_ts_nanos, utc_ts_sec,
};
use std::time::SystemTime;
use vstd::prelude::*;

verus! {

/// Seconds in an hour.
pub const SECONDS_PER_HOUR: i128 = 3_600;

/// Milliseconds in an hour.
pub const MILLIS_PER_HOUR: i128 = 3_600_000;

/// Nanoseconds in an hour.
pub const NANOS_PER_HOUR: i128 = 3_600_000_000_000;

/// Whether a count of units after the epoch is one that the counter of
/// `limit` at most can hold.
pub open spec fn is_count(count: int, limit: int) -> bool {
    0 <= count <= limit
}

/// A count of units after the epoch, moved by `shift` units.
fn shifted_count(count: u128, shift: i128) -> (moved: Option<u128>)
    requires
        shift > i128::MIN,
    ensures
        is_count(count + shift, u128::MAX as int) ==> moved == Some((count + shift) as u128),
        !is_count(count + shift, u128::MAX as int) ==> moved.is_none(),
{
    if shift >= 0 {
        count.checked_add(shift as u128)
    } else {
        count.checked_sub((-shift) as u128)
    }
}

/// The local count of seconds: the seconds from the epoch to an instant in
/// UTC, moved by `offset_hours` hours. A local instant before the epoch or
/// past the largest count is `LocalOutOfRange`.
pub fn seconds_at_offset(utc_seconds: u64, offset_hours: i64) -> (local: Result<u64, TimeError>)
    ensures
        is_count(utc_seconds + offset_hours * 3_600, u64::MAX as int) ==> local == Ok::<
            u64,
            TimeError,
        >((utc_seconds + offset_hours * 3_600) as u64),
        !is_count(utc_seconds + offset_hours * 3_600, u64::MAX as int) ==> local == Err::<
            u64,
            TimeError,
        >(TimeError::LocalOutOfRange),
{
    match shifted_count(utc_seconds as u128, offset_hours as i128 * SECONDS_PER_HOUR) {
        Some(moved) => if moved <= u64::MAX as u128 {
            Ok(moved as u64)
        } else {
            Err(TimeError::LocalOutOfRange)
        },
        None => Err(TimeError::LocalOutOfRange),
    }
}

/// The local count of milliseconds: the milliseconds from the epoch to an
/// instant in UTC, moved by `offset_hours` hours. A local instant before the
/// epoch or past the largest count is `LocalOutOfRange`.
pub fn millis_at_offset(utc_millis: u128, offset_hours: i64) -> (local: Result<u128, TimeError>)
    ensures
        is_count(utc_millis + offset_hours * 3_600_000, u128::MAX as int) ==> local == Ok::<
            u128,
            TimeError,
        >((utc_millis + offset_hours * 3_600_000) as u128),
        !is_count(utc_millis + offset_hours * 3_600_000, u128::MAX as int) ==> local == Err::<
            u128,
            TimeError,
        >(TimeError::LocalOutOfRange),
{
    match shifted_count(utc_millis, offset_hours as i128 * MILLIS_PER_HOUR) {
        Some(moved) => Ok(moved),
        None => Err(TimeError::LocalOutOfRange),
    }
}

/// The local count of nanoseconds: the nanoseconds from the epoch to an
/// instant in UTC, moved by `offset_hours` hours. A local instant before the
/// epoch or past the largest count is `LocalOutOfRange`.
pub fn nanos_at_offset(utc_nanos: u128, offset_hours: i64) -> (local: Result<u128, TimeError>)
    ensures
        is_count(utc_nanos + offset_hours * 3_600_000_000_000, u128::MAX as int) ==> local == Ok::<
            u128,
            TimeError,
        >((utc_nanos + offset_hours * 3_600_000_000_000) as u128),
        !is_count(utc_nanos + offset_hours * 3_600_000_000_000, u128::MAX as int) ==> local
            == Err::<u128, TimeError>(TimeError::LocalOutOfRange),
{
    match shifted_count(utc_nanos, offset_hours as i128 * NANOS_PER_HOUR) {
        Some(moved) => Ok(moved),
        None => Err(TimeError::LocalOutOfRange),
    }
}

/// The hour of the local day follows the hour in UTC around the clock: it is
/// the UTC hour plus the offset, taken modulo 24, below 0 and above 23 alike;
/// and the local day lies as many days from the UTC day as that sum holds
/// whole days, so an offset that carries the hour past midnight carries the
/// date with it.
pub proof fn lemma_local_hour_wraps(utc_seconds: nat, offset_hours: int)
    requires
        utc_seconds + offset_hours * 3_600 >= 0,
    ensures
        hour_at((utc_seconds + offset_hours * 3_600) as nat) == (hour_at(utc_seconds)
            + offset_hours) % 24,
        (utc_seconds + offset_hours * 3_600) / 86_400 == utc_seconds / 86_400 + (hour_at(
            utc_seconds,
        ) + offset_hours) / 24,
{
    let local_seconds = utc_seconds + offset_hours * 3_600;
    let utc_hours = utc_seconds / 3_600;
    let utc_days = utc_seconds / 86_400;
    assert(utc_seconds == 3_600 * utc_hours + utc_seconds % 3_600);
    assert(local_seconds / 3_600 == utc_hours + offset_hours);
    assert(utc_hours / 24 == utc_days);
    assert(utc_hours == 24 * utc_days + hour_at(utc_seconds));
    assert((local_seconds / 3_600) / 24 == local_seconds / 86_400);
    assert((24 * utc_days + (hour_at(utc_seconds) + offset_hours)) / 24 == utc_days + (hour_at(
        utc_seconds,
    ) + offset_hours) / 24);
    assert((24 * utc_days + (hour_at(utc_seconds) + offset_hours)) % 24 == (hour_at(utc_seconds)
        + offset_hours) % 24);
}

/// Whole seconds from the epoch to now on the clock of a zone `offset_hours`
/// hours east of UTC: the UTC count moved by those hours.
pub fn local_ts_sec(offset_hours: i64) -> (seconds: Result<u64, TimeError>)
    ensures
        seconds matches Ok(local) ==> is_count(local - offset_hours * 3_600, u64::MAX as int),
        seconds matches Err(e) ==> e == TimeError::ClockBeforeEpoch || (e
            == TimeError::LocalOutOfRange && offset_hours != 0),
{
    match utc_ts_sec() {
        Ok(utc) => seconds_at_offset(utc, offset_hours),
        Err(e) => Err(e),
    }
}

/// Whole milliseconds from the epoch to now on the clock of a zone
/// `offset_hours` hours east of UTC.
pub fn local_ts_millis(offset_hours: i64) -> (millis: Result<u128, TimeError>)
    ensures
        millis matches Ok(local) ==> is_count(local - offset_hours * 3_600_000, u128::MAX as int),
        millis matches Err(e) ==> e == TimeError::ClockBeforeEpoch || (e
            == TimeError::LocalOutOfRange && offset_hours != 0),
{
    match utc_ts_millis() {
        Ok(utc) => millis_at_offset(utc, offset_hours),
        Err(e) => Err(e),
    }
}

/// Nanoseconds from the epoch to now on the clock of a zone `offset_hours`
/// hours east of UTC.
pub fn local_ts_nanos(offset_hours: i64) -> (nanos: Result<u128, TimeError>)
    ensures
        nanos matches Ok(local) ==> is_count(
            local - offset_hours * 3_600_000_000_000,
            u128::MAX as int,
        ),
        nanos matches Err(e) ==> e == TimeError::ClockBeforeEpoch || (e
            == TimeError::LocalOutOfRange && offset_hours != 0),
{
    match utc_ts_nanos() {
        Ok(utc) => nanos_at_offset(utc, offset_hours),
        Err(e) => Err(e),
    }
}

/// The current instant on the clock of a zone `offset_hours` hours east of
/// UTC: the host's reading with its whole seconds moved by those hours. An
/// instant that the host cannot represent is `LocalOutOfRange`.
pub fn local_now(offset_hours: i64) -> (now: Result<SystemTime, TimeError>)
    ensures
        now matches Err(e) ==> e == TimeError::ClockBeforeEpoch || e
            == TimeError::LocalOutOfRange,
{
    let elapsed = match duration_since() {
        Ok(elapsed) => elapsed,
        Err(e) => { return Err(e); },
    };
    let local = match elapsed.at_offset(offset_hours) {
        Ok(local) => local,
        Err(e) => { return Err(e); },
    };
    match after_epoch(local.to_duration()) {
        Some(now) => Ok(now),
        None => Err(TimeError::LocalOutOfRange),
    }
}

/// The current year on the clock of a zone `offset_hours` hours east of UTC.
pub fn get_local_year(offset_hours: i64) -> (year: Result<u64, TimeError>)
    ensures
        year matches Ok(y) ==> y >= 1970 && is_year_of_an_instant(y as int),
        year matches Err(e) ==> e == TimeError::ClockBeforeEpoch || (e
            == TimeError::LocalOutOfRange && offset_hours != 0),
{
    match local_ts_sec(offset_hours) {
        Ok(seconds) => Ok(calc_date(seconds).0),
        Err(e) => Err(e),
    }
}

/// The current month, 1..=12, on the clock of a zone `offset_hours` hours
/// east of UTC.
pub fn get_local_month(offset_hours: i64) -> (month: Result<u64, TimeError>)
    ensures
        month matches Ok(m) ==> 1 <= m <= 12,
        month matches Err(e) ==> e == TimeError::ClockBeforeEpoch || (e
            == TimeError::LocalOutOfRange && offset_hours != 0),
{
    match local_ts_sec(offset_hours) {
        Ok(seconds) => Ok(calc_date(seconds).1),
        Err(e) => Err(e),
    }
}

/// The current day of the month, 1..=31, on the clock of a zone
/// `offset_hours` hours east of UTC.
pub fn get_local_day(offset_hours: i64) -> (day: Result<u64, TimeError>)
    ensures
        day matches Ok(d) ==> 1 <= d <= 31,
        day matches Err(e) ==> e == TimeError::ClockBeforeEpoch || (e
            == TimeError::LocalOutOfRange && offset_hours != 0),
{
    match local_ts_sec(offset_hours) {
        Ok(seconds) => Ok(calc_date(seconds).2),
        Err(e) => Err(e),
    }
}

/// The current hour of the day, 0..=23, on the clock of a zone `offset_hours`
/// hours east of UTC.
pub fn get_local_hour(offset_hours: i64) -> (hour: Result<u64, TimeError>)
    ensures
        hour matches Ok(h) ==> h < 24,
        hour matches Err(e) ==> e == TimeError::ClockBeforeEpoch || (e
            == TimeError::LocalOutOfRange && offset_hours != 0),
{
    match local_ts_sec(offset_hours) {
        Ok(seconds) => Ok(hour_of_day(seconds)),
        Err(e) => Err(e),
    }
}

/// The current instant on the clock of a zone `offset_hours` hours east of
/// UTC as timestamp text, `YYYY-MM-DD-HH-mm-SS-mmm-nnnnnn`. The fields below
/// the hour are those of UTC, which a whole-hour offset leaves as they are.
/// Each field comes from a clock reading of its own.
pub fn format_local_ts(offset_hours: i64) -> (text: Result<String, TimeError>)
    ensures
        text matches Ok(t) ==> is_clock_timestamp(t@),
        text matches Err(e) ==> e == TimeError::ClockBeforeEpoch || (e
            == TimeError::LocalOutOfRange && offset_hours != 0),
{
    let year: u64 = match get_local_year(offset_hours) {
        Ok(year) => year,
        Err(e) => { return Err(e); },
    };
    let month: u64 = match get_local_month(offset_hours) {
        Ok(month) => month,
        Err(e) => { return Err(e); },
    };
    let day: u64 = match get_local_day(offset_hours) {
        Ok(day) => day,
        Err(e) => { return Err(e); },
    };
    let hour: u64 = match get_local_hour(offset_hours) {
        Ok(hour) => hour,
        Err(e) => { return Err(e); },
    };
    let minute: u64 = match get_minute() {
        Ok(minute) => minute,
        Err(e) => { return Err(e); },
    };
    let second: u64 = match get_second() {
        Ok(second) => second,
        Err(e) => { return Err(e); },
    };
    let millis: u64 = match get_millis() {
        Ok(millis) => millis,
        Err(e) => { return Err(e); },
    };
    let nanos: u64 = match get_nanos() {
        Ok(nanos) => nanos,
        Err(e) => { return Err(e); },
    };
    let text = format_timestamp(year, month, day, hour, minute, second, millis, nanos);
    assert(text@ == timestamp_text(
        year as nat,
        month as nat,
        day as nat,
        hour as nat,
        minute as nat,
        second as nat,
        millis as nat,
        nanos as nat,
    ));
    Ok(text)
}

} // verus!
