//! The calendar engine: proleptic Gregorian dates from seconds since the epoch.

use crate::elapsed::Elapsed;
use crate::error::TimeError;
use crate::host::since_epoch;
use crate::utc::utc_now;
use std::time::{Duration, SystemTimeError};
use vstd::prelude::*;

verus! {

/// Seconds in one day.
pub const SECONDS_PER_DAY: u64 = 86_400;

/// Seconds in a year of 365 days.
pub const SECONDS_PER_COMMON_YEAR: u64 = 31_536_000;

/// The Gregorian leap-year rule.
pub open spec fn is_leap(year: int) -> bool {
    (year % 4 == 0 && year % 100 != 0) || year % 400 == 0
}

/// Days in `year`.
pub open spec fn days_in_year(year: int) -> int {
    if is_leap(year) {
        366
    } else {
        365
    }
}

/// Days in month `month` (1 = January) of a leap or a common year.
pub open spec fn month_days(leap: bool, month: int) -> int {
    if month == 2 {
        if leap {
            29
        } else {
            28
        }
    } else if month == 4 || month == 6 || month == 9 || month == 11 {
        30
    } else {
        31
    }
}

/// Days in month `month` (1 = January) of `year`.
pub open spec fn days_in_month(year: int, month: int) -> int {
    month_days(is_leap(year), month)
}

/// Days of `year` that lie before the first of month `month`.
pub open spec fn days_before_month(year: int, month: int) -> int
    decreases month,
{
    if month <= 1 {
        0
    } else {
        days_before_month(year, month - 1) + days_in_month(year, month - 1)
    }
}

/// Days from 1970-01-01 to the first of January of `year`.
pub open spec fn days_before_year(year: int) -> int
    decreases year,
{
    if year <= 1970 {
        0
    } else {
        days_before_year(year - 1) + days_in_year(year - 1)
    }
}

/// A calendar date at or after the epoch: a year from 1970 on, a month of the
/// year and a day of that month.
pub open spec fn is_valid_date(year: int, month: int, day: int) -> bool {
    &&& year >= 1970
    &&& 1 <= month <= 12
    &&& 1 <= day <= days_in_month(year, month)
}

/// Whole days from 1970-01-01 to the given date.
pub open spec fn day_number(year: int, month: int, day: int) -> int {
    days_before_year(year) + days_before_month(year, month) + day - 1
}

/// Whether the given date is the one that holds the instant `total_seconds`
/// after the epoch: a valid date as many whole days from the epoch as the
/// seconds hold.
pub open spec fn is_date_at(year: int, month: int, day: int, total_seconds: nat) -> bool {
    &&& is_valid_date(year, month, day)
    &&& day_number(year, month, day) == total_seconds / 86_400
}

/// The day of the year of a date, 1 for the first of January.
pub open spec fn day_of_year(year: int, month: int, day: int) -> int {
    days_before_month(year, month) + day
}

/// The weekday code of the first of January of `year`, by the congruence that
/// the week number is built on. Code 3 stands for Thursday.
pub open spec fn first_of_january_code(year: int) -> int {
    let elapsed = year - 1970;
    (365 * elapsed + elapsed / 4 - elapsed / 100 + elapsed / 400 + 1) % 7
}

/// The day of the year of the first Thursday of `year`, going by
/// `first_of_january_code`.
pub open spec fn first_thursday(year: int) -> int {
    let code = first_of_january_code(year);
    if code <= 3 {
        1 + (3 - code)
    } else {
        8 - code
    }
}

/// The week number of a date: week 1 is the week of the year's first Thursday.
pub open spec fn iso_week(year: int, month: int, day: int) -> int {
    (day_of_year(year, month, day) - first_thursday(year) + 10) / 7
}

/// The weekday names in the order of the days from the epoch on, which was a
/// Thursday.
pub open spec fn weekday_text(index: int) -> Seq<char> {
    if index == 0 {
        "Thursday"@
    } else if index == 1 {
        "Friday"@
    } else if index == 2 {
        "Saturday"@
    } else if index == 3 {
        "Sunday"@
    } else if index == 4 {
        "Monday"@
    } else if index == 5 {
        "Tuesday"@
    } else {
        "Wednesday"@
    }
}

/// The name of the weekday on which the instant `total_seconds` after the
/// epoch falls.
pub open spec fn day_name_at(total_seconds: nat) -> Seq<char> {
    weekday_text(((total_seconds / 86_400) % 7) as int)
}

/// The English name of month `month`, for 1..=12.
pub open spec fn month_text(month: int) -> Seq<char> {
    if month == 1 {
        "January"@
    } else if month == 2 {
        "February"@
    } else if month == 3 {
        "March"@
    } else if month == 4 {
        "April"@
    } else if month == 5 {
        "May"@
    } else if month == 6 {
        "June"@
    } else if month == 7 {
        "July"@
    } else if month == 8 {
        "August"@
    } else if month == 9 {
        "September"@
    } else if month == 10 {
        "October"@
    } else if month == 11 {
        "November"@
    } else {
        "December"@
    }
}

/// The days before each month, written out.
pub proof fn lemma_days_before_month_values(year: int)
    ensures
        days_before_month(year, 1) == 0,
        days_before_month(year, 2) == 31,
        days_before_month(year, 3) == days_in_year(year) - 306,
        days_before_month(year, 4) == days_in_year(year) - 275,
        days_before_month(year, 5) == days_in_year(year) - 245,
        days_before_month(year, 6) == days_in_year(year) - 214,
        days_before_month(year, 7) == days_in_year(year) - 184,
        days_before_month(year, 8) == days_in_year(year) - 153,
        days_before_month(year, 9) == days_in_year(year) - 122,
        days_before_month(year, 10) == days_in_year(year) - 92,
        days_before_month(year, 11) == days_in_year(year) - 61,
        days_before_month(year, 12) == days_in_year(year) - 31,
{
    reveal_with_fuel(days_before_month, 13);
}

/// Every year before `later` adds at least 365 days.
pub proof fn lemma_days_before_year_grows(earlier: int, later: int)
    requires
        1970 <= earlier <= later,
    ensures
        days_before_year(earlier) + 365 * (later - earlier) <= days_before_year(later),
    decreases later - earlier,
{
    if earlier < later {
        lemma_days_before_year_grows(earlier, later - 1);
    }
}

/// A day belongs to one date only: valid dates with the same day number are
/// the same date. So an instant has one date, and `is_date_at` names it.
pub proof fn lemma_day_number_unique(
    year_a: int,
    month_a: int,
    day_a: int,
    year_b: int,
    month_b: int,
    day_b: int,
)
    requires
        is_valid_date(year_a, month_a, day_a),
        is_valid_date(year_b, month_b, day_b),
        day_number(year_a, month_a, day_a) == day_number(year_b, month_b, day_b),
    ensures
        year_a == year_b,
        month_a == month_b,
        day_a == day_b,
{
    lemma_days_before_month_values(year_a);
    lemma_days_before_month_values(year_b);
    if year_a < year_b {
        lemma_days_before_year_grows(year_a + 1, year_b);
    } else if year_b < year_a {
        lemma_days_before_year_grows(year_b + 1, year_a);
    }
}

/// The weekday names repeat every seven days.
pub proof fn lemma_day_name_repeats_weekly(total_seconds: nat)
    ensures
        day_name_at(total_seconds + 7 * 86_400) == day_name_at(total_seconds),
{
}

/// A week number lies between 1 and 53.
pub proof fn lemma_iso_week_bounds(year: int, month: int, day: int)
    requires
        is_valid_date(year, month, day),
    ensures
        1 <= iso_week(year, month, day) <= 53,
{
    lemma_days_before_month_values(year);
}

/// Whether `year` is a leap year.
pub fn is_leap_year(year: u64) -> (leap: bool)
    ensures
        leap == is_leap(year as int),
{
    (year % 4 == 0 && year % 100 != 0) || (year % 400 == 0)
}

/// Seconds in `year`.
fn seconds_in_year(year: u64) -> (seconds: u64)
    ensures
        seconds == days_in_year(year as int) * 86_400,
{
    if is_leap_year(year) {
        SECONDS_PER_COMMON_YEAR + SECONDS_PER_DAY
    } else {
        SECONDS_PER_COMMON_YEAR
    }
}

/// Days in month `month` of a leap or a common year.
fn month_length(leap: bool, month: u64) -> (days: u64)
    requires
        1 <= month <= 12,
    ensures
        days == month_days(leap, month as int),
{
    if month == 2 {
        if leap {
            29
        } else {
            28
        }
    } else if month == 4 || month == 6 || month == 9 || month == 11 {
        30
    } else {
        31
    }
}

/// The calendar date that holds the instant `total_seconds` after the epoch.
///
/// Walks the years from 1970, taking each year's length off the count while a
/// whole year is left, then the months of the year reached in the same way;
/// the whole days left over give the day of the month. An instant on the
/// boundary between two years or months belongs to the later one.
pub fn calc_date(total_seconds: u64) -> (date: (u64, u64, u64))
    ensures
        is_date_at(date.0 as int, date.1 as int, date.2 as int, total_seconds as nat),
{
    let mut seconds_remaining: u64 = total_seconds;
    let mut year: u64 = 1970;
    while seconds_remaining >= seconds_in_year(year)
        invariant
            year >= 1970,
            days_before_year(year as int) * 86_400 + seconds_remaining == total_seconds,
            365 * (year - 1970) <= days_before_year(year as int),
        decreases seconds_remaining,
    {
        seconds_remaining -= seconds_in_year(year);
        year += 1;
    }

    let leap = is_leap_year(year);
    let mut month: u64 = 1;
    proof {
        lemma_days_before_month_values(year as int);
    }
    while month < 12 && seconds_remaining >= month_length(leap, month) * SECONDS_PER_DAY
        invariant
            1 <= month <= 12,
            leap == is_leap(year as int),
            (days_before_year(year as int) + days_before_month(year as int, month as int)) * 86_400
                + seconds_remaining == total_seconds,
            seconds_remaining < (days_in_year(year as int) - days_before_month(
                year as int,
                month as int,
            )) * 86_400,
        decreases 12 - month,
    {
        seconds_remaining -= month_length(leap, month) * SECONDS_PER_DAY;
        month += 1;
    }

    let day: u64 = seconds_remaining / SECONDS_PER_DAY + 1;
    (year, month, day)
}

/// The weekday code of the first of January of `year`.
fn january_code(year: u64) -> (code: u64)
    requires
        year >= 1970,
    ensures
        code == first_of_january_code(year as int),
{
    let elapsed: u128 = (year - 1970) as u128;
    ((365 * elapsed + elapsed / 4 - elapsed / 100 + elapsed / 400 + 1) % 7) as u64
}

/// The week number of `date`, given as (year, month, day): the number of the
/// week of the year, where week 1 holds the year's first Thursday.
pub fn calc_week(date: (u64, u64, u64)) -> (week: u64)
    requires
        is_valid_date(date.0 as int, date.1 as int, date.2 as int),
    ensures
        week == iso_week(date.0 as int, date.1 as int, date.2 as int),
{
    let year: u64 = date.0;
    let month: u64 = date.1;
    let day: u64 = date.2;

    let leap = is_leap_year(year);
    let mut day_of_year: u64 = day;
    let mut preceding: u64 = 1;
    while preceding < month
        invariant
            1 <= preceding <= month <= 12,
            leap == is_leap(year as int),
            day <= 31,
            day_of_year == days_before_month(year as int, preceding as int) + day,
            day_of_year <= 31 * preceding,
        decreases month - preceding,
    {
        day_of_year += month_length(leap, preceding);
        preceding += 1;
    }

    let code: u64 = january_code(year);
    let first_thursday_in_year: u64 = if code <= 3 {
        1 + (3 - code)
    } else {
        8 - code
    };

    (day_of_year + 10 - first_thursday_in_year) / 7
}

/// What a reading of the clock against the epoch comes to: the time elapsed,
/// or `ClockBeforeEpoch` where the clock stood before the epoch.
pub fn elapsed_or_error(reading: Result<Duration, SystemTimeError>) -> (elapsed: Result<
    Elapsed,
    TimeError,
>)
    ensures
        reading is Ok ==> elapsed is Ok,
        reading is Err ==> elapsed == Err::<Elapsed, TimeError>(TimeError::ClockBeforeEpoch),
{
    match reading {
        Ok(amount) => Ok(Elapsed::from_duration(&amount)),
        Err(_) => Err(TimeError::ClockBeforeEpoch),
    }
}

/// The time elapsed from the epoch to now. A host clock that reads an instant
/// before the epoch gives `ClockBeforeEpoch`, never a shortened amount.
pub fn duration_since() -> (elapsed: Result<Elapsed, TimeError>)
    ensures
        elapsed matches Err(e) ==> e == TimeError::ClockBeforeEpoch,
{
    let now = utc_now();
    elapsed_or_error(since_epoch(&now))
}

/// The name of the weekday on which the instant `total_seconds` after the
/// epoch falls.
pub fn get_day_name(total_seconds: u64) -> (name: &'static str)
    ensures
        name@ == day_name_at(total_seconds as nat),
{
    let days_since_epoch: u64 = (total_seconds / SECONDS_PER_DAY) % 7;
    if days_since_epoch == 0 {
        "Thursday"
    } else if days_since_epoch == 1 {
        "Friday"
    } else if days_since_epoch == 2 {
        "Saturday"
    } else if days_since_epoch == 3 {
        "Sunday"
    } else if days_since_epoch == 4 {
        "Monday"
    } else if days_since_epoch == 5 {
        "Tuesday"
    } else {
        "Wednesday"
    }
}

/// The English name of month `month`, counted from 1 for January. A number
/// outside 1..=12 is rejected.
pub fn get_month_name(month: u64) -> (name: Result<&'static str, TimeError>)
    ensures
        1 <= month <= 12 ==> (name matches Ok(text) && text@ == month_text(month as int)),
        !(1 <= month <= 12) ==> name == Err::<&'static str, TimeError>(TimeError::OutOfRange(month)),
{
    if month == 1 {
        Ok("January")
    } else if month == 2 {
        Ok("February")
    } else if month == 3 {
        Ok("March")
    } else if month == 4 {
        Ok("April")
    } else if month == 5 {
        Ok("May")
    } else if month == 6 {
        Ok("June")
    } else if month == 7 {
        Ok("July")
    } else if month == 8 {
        Ok("August")
    } else if month == 9 {
        Ok("September")
    } else if month == 10 {
        Ok("October")
    } else if month == 11 {
        Ok("November")
    } else if month == 12 {
        Ok("December")
    } else {
        Err(TimeError::OutOfRange(month))
    }
}

} // verus!
