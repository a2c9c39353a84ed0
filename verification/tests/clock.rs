use std::time::{Duration, SystemTime, UNIX_EPOCH};
use wtime::calc::{calc_date, duration_since, elapsed_or_error};
use wtime::elapsed::Elapsed;
use wtime::error::TimeError;
use wtime::stamp::format_timestamp;
use wtime::utc::{
    format_utc_ts, get_day, get_hour, get_millis, get_minute, get_month, get_nanos, get_second,
    get_year, hour_of_day, millis_component, minute_of_hour, nanos_component, second_of_minute,
    utc_now, utc_ts_millis, utc_ts_nanos, utc_ts_sec,
};

fn is_timestamp_pattern(text: &str) -> bool {
    let bytes = text.as_bytes();
    if bytes.len() != 30 {
        return false;
    }
    let mut i: usize = 0;
    while i < 30 {
        let separator = i == 4 || i == 7 || i == 10 || i == 13 || i == 16 || i == 19 || i == 23;
        if separator {
            if bytes[i] != b'-' {
                return false;
            }
        } else if !bytes[i].is_ascii_digit() {
            return false;
        }
        i += 1;
    }
    true
}

#[test]
fn hour_of_day_turns_over_after_23() {
    assert_eq!(hour_of_day(0), 0);
    assert_eq!(hour_of_day(3_599), 0);
    assert_eq!(hour_of_day(3_600), 1);
    assert_eq!(hour_of_day(23 * 3_600 + 3_599), 23);
    assert_eq!(hour_of_day(24 * 3_600), 0);
    assert_eq!(hour_of_day(1_728_933_069), 19);
    assert_eq!(hour_of_day(u64::MAX), 7);
}

#[test]
fn minute_of_hour_turns_over_after_59() {
    assert_eq!(minute_of_hour(59), 0);
    assert_eq!(minute_of_hour(60), 1);
    assert_eq!(minute_of_hour(3_599), 59);
    assert_eq!(minute_of_hour(3_600), 0);
    assert_eq!(minute_of_hour(1_728_933_069), 11);
}

#[test]
fn second_of_minute_turns_over_after_59() {
    assert_eq!(second_of_minute(0), 0);
    assert_eq!(second_of_minute(59), 59);
    assert_eq!(second_of_minute(60), 0);
    assert_eq!(second_of_minute(1_728_933_069), 9);
}

#[test]
fn millis_component_is_the_count_modulo_a_thousand() {
    assert_eq!(millis_component(0), 0);
    assert_eq!(millis_component(999), 999);
    assert_eq!(millis_component(1_000), 0);
    assert_eq!(millis_component(1_728_933_069_123), 123);
    assert_eq!(millis_component(u128::MAX), 455);
}

#[test]
fn nanos_component_is_the_count_modulo_a_million() {
    assert_eq!(nanos_component(0), 0);
    assert_eq!(nanos_component(999_999), 999_999);
    assert_eq!(nanos_component(1_000_000), 0);
    // Not the nanosecond of the second: 1.234567890 s gives 567 890.
    assert_eq!(nanos_component(1_234_567_890), 567_890);
}

#[test]
fn timestamp_of_given_fields() {
    assert_eq!(
        format_timestamp(2024, 10, 14, 19, 11, 9, 5, 123),
        "2024-10-14-19-11-09-005-000123"
    );
}

#[test]
fn timestamp_pads_every_field_with_zeros() {
    assert_eq!(format_timestamp(0, 0, 0, 0, 0, 0, 0, 0), "0000-00-00-00-00-00-000-000000");
    assert_eq!(format_timestamp(7, 1, 2, 3, 4, 5, 6, 7), "0007-01-02-03-04-05-006-000007");
}

#[test]
fn timestamp_of_the_widest_valid_fields() {
    let text = format_timestamp(9999, 12, 31, 23, 59, 59, 999, 999_999);
    assert_eq!(text, "9999-12-31-23-59-59-999-999999");
    assert!(is_timestamp_pattern(&text));
}

#[test]
fn timestamp_keeps_digits_that_overflow_a_width() {
    let text = format_timestamp(10_000, 1, 1, 0, 0, 0, 0, 0);
    assert_eq!(text, "10000-01-01-00-00-00-000-000000");
    assert_eq!(text.len(), 31);
    assert_eq!(
        format_timestamp(u64::MAX, 100, 0, 0, 0, 0, 1_000, 1_000_000),
        "18446744073709551615-100-00-00-00-00-1000-1000000"
    );
}

#[test]
fn timestamp_of_valid_fields_matches_the_pattern() {
    let seconds: [u64; 5] = [0, 86_399, 951_782_401, 1_728_933_069, 253_402_300_799];
    for s in seconds {
        let (year, month, day) = calc_date(s);
        let text = format_timestamp(
            year,
            month,
            day,
            hour_of_day(s),
            minute_of_hour(s),
            second_of_minute(s),
            millis_component(s as u128 * 1_000 + 17),
            nanos_component(s as u128 * 1_000_000_000 + 17_000_042),
        );
        assert_eq!(text.len(), 30);
        assert!(is_timestamp_pattern(&text));
    }
    assert_eq!(
        format_timestamp(1970, 1, 1, 23, 59, 59, 17, 42),
        "1970-01-01-23-59-59-017-000042"
    );
}

#[test]
fn clock_reading_after_the_epoch_is_kept() {
    let amount = Duration::new(1_728_933_069, 123_456_789);
    let reading = UNIX_EPOCH.checked_add(amount).unwrap().duration_since(UNIX_EPOCH);
    assert_eq!(elapsed_or_error(reading), Ok(Elapsed::new(1_728_933_069, 123_456_789).unwrap()));
}

#[test]
fn clock_reading_before_the_epoch_is_an_error() {
    let before = UNIX_EPOCH.checked_sub(Duration::new(5, 0)).unwrap();
    let reading = before.duration_since(UNIX_EPOCH);
    assert_eq!(elapsed_or_error(reading), Err(TimeError::ClockBeforeEpoch));
}

#[test]
fn duration_since_agrees_with_the_host_clock() {
    let before = SystemTime::now().duration_since(UNIX_EPOCH).unwrap();
    let measured = duration_since().unwrap().to_duration();
    let after = SystemTime::now().duration_since(UNIX_EPOCH).unwrap();
    assert!(before <= measured);
    assert!(measured <= after);
}

#[test]
fn utc_now_agrees_with_the_host_clock() {
    let before = SystemTime::now();
    let now = utc_now();
    let after = SystemTime::now();
    assert!(before <= now);
    assert!(now <= after);
}

#[test]
fn utc_counts_agree_with_the_host_clock() {
    let before = SystemTime::now().duration_since(UNIX_EPOCH).unwrap();
    let seconds: u64 = utc_ts_sec().unwrap();
    let millis: u128 = utc_ts_millis().unwrap();
    let nanos: u128 = utc_ts_nanos().unwrap();
    let after = SystemTime::now().duration_since(UNIX_EPOCH).unwrap();
    assert!(before.as_secs() <= seconds && seconds <= after.as_secs());
    assert!(before.as_millis() <= millis && millis <= after.as_millis());
    assert!(before.as_nanos() <= nanos && nanos <= after.as_nanos());
}

#[test]
fn current_components_lie_in_their_ranges() {
    assert!(get_year().unwrap() >= 2024);
    let month: u64 = get_month().unwrap();
    assert!(1 <= month && month <= 12);
    let day: u64 = get_day().unwrap();
    assert!(1 <= day && day <= 31);
    assert!(get_hour().unwrap() < 24);
    assert!(get_minute().unwrap() < 60);
    assert!(get_second().unwrap() < 60);
    assert!(get_millis().unwrap() < 1_000);
    assert!(get_nanos().unwrap() < 1_000_000);
}

#[test]
fn current_date_agrees_with_the_host_clock() {
    let before = calc_date(SystemTime::now().duration_since(UNIX_EPOCH).unwrap().as_secs());
    let year: u64 = get_year().unwrap();
    let after = calc_date(SystemTime::now().duration_since(UNIX_EPOCH).unwrap().as_secs());
    assert!(before.0 <= year && year <= after.0);
}

#[test]
fn utc_timestamp_matches_the_pattern() {
    let text = format_utc_ts().unwrap();
    assert_eq!(text.len(), 30);
    assert_eq!(text.chars().count(), 30);
    assert!(is_timestamp_pattern(&text));
}

#[test]
fn utc_timestamp_starts_with_the_current_year() {
    let before: u64 = get_year().unwrap();
    let text = format_utc_ts().unwrap();
    let after: u64 = get_year().unwrap();
    let year: u64 = text[0..4].parse().unwrap();
    assert!(before <= year && year <= after);
}

#[test]
fn amount_of_seconds_and_nanoseconds() {
    let amount = Elapsed::new(1_728_933_069, 123_456_789).unwrap();
    assert_eq!(amount.as_secs(), 1_728_933_069);
    assert_eq!(amount.subsec_nanos(), 123_456_789);
    assert_eq!(amount.as_millis(), 1_728_933_069_123);
    assert_eq!(amount.as_nanos(), 1_728_933_069_123_456_789);
}

#[test]
fn amount_with_a_second_of_nanoseconds_is_refused() {
    assert_eq!(Elapsed::new(5, 1_000_000_000), None);
    assert_eq!(Elapsed::new(5, u32::MAX), None);
    assert!(Elapsed::new(5, 999_999_999).is_some());
}

#[test]
fn largest_amount_keeps_its_parts() {
    let amount = Elapsed::new(u64::MAX, 999_999_999).unwrap();
    assert_eq!(amount.as_secs(), u64::MAX);
    assert_eq!(amount.as_millis(), u64::MAX as u128 * 1_000 + 999);
    assert_eq!(amount.as_nanos(), u64::MAX as u128 * 1_000_000_000 + 999_999_999);
}

#[test]
fn amount_agrees_with_the_duration_of_the_same_parts() {
    let duration = Duration::new(1_600_000_000, 987_654_321);
    let amount = Elapsed::from_duration(&duration);
    assert_eq!(amount, Elapsed::new(1_600_000_000, 987_654_321).unwrap());
    assert_eq!(amount.as_secs(), duration.as_secs());
    assert_eq!(amount.subsec_nanos(), duration.subsec_nanos());
    assert_eq!(amount.as_millis(), duration.as_millis());
    assert_eq!(amount.as_nanos(), duration.as_nanos());
    assert_eq!(amount.to_duration(), duration);
}

#[test]
fn parts_of_one_amount_agree() {
    let amount = Elapsed::new(1_728_933_069, 123_456_789).unwrap();
    assert_eq!(amount.as_millis() / 1_000, amount.as_secs() as u128);
    assert_eq!(millis_component(amount.as_millis()), (amount.subsec_nanos() / 1_000_000) as u64);
    assert_eq!(nanos_component(amount.as_nanos()), (amount.subsec_nanos() % 1_000_000) as u64);
    assert_eq!(millis_component(amount.as_millis()), 123);
    assert_eq!(nanos_component(amount.as_nanos()), 456_789);
}

#[test]
fn amount_moves_by_whole_hours_and_keeps_the_rest() {
    let amount = Elapsed::new(90_000, 123_456_789).unwrap();
    assert_eq!(amount.at_offset(-5), Ok(Elapsed::new(72_000, 123_456_789).unwrap()));
    assert_eq!(amount.at_offset(2), Ok(Elapsed::new(97_200, 123_456_789).unwrap()));
    assert_eq!(amount.at_offset(0), Ok(amount));
    assert_eq!(amount.at_offset(-25), Ok(Elapsed::new(0, 123_456_789).unwrap()));
}

#[test]
fn amount_moved_out_of_the_counter_is_out_of_range() {
    let amount = Elapsed::new(90_000, 5).unwrap();
    assert_eq!(amount.at_offset(-26), Err(TimeError::LocalOutOfRange));
    let late = Elapsed::new(u64::MAX, 0).unwrap();
    assert_eq!(late.at_offset(1), Err(TimeError::LocalOutOfRange));
    assert_eq!(late.at_offset(0), Ok(late));
}
