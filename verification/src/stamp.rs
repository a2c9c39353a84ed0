//! The fixed-width timestamp text `YYYY-MM-DD-HH-mm-SS-mmm-nnnnnn`.

use vstd::prelude::*;
use vstd::string::StringExecFns;

verus! {

/// Ten to the power `exp`.
pub open spec fn pow10(exp: nat) -> nat
    decreases exp,
{
    if exp == 0 {
        1
    } else {
        10 * pow10((exp - 1) as nat)
    }
}

/// How many decimal digits `n` has; zero has one.
pub open spec fn digit_count(n: nat) -> nat
    decreases n,
{
    if n < 10 {
        1
    } else {
        1 + digit_count(n / 10)
    }
}

/// The character of a decimal digit.
pub open spec fn digit_char(digit: nat) -> char {
    if digit == 0 {
        '0'
    } else if digit == 1 {
        '1'
    } else if digit == 2 {
        '2'
    } else if digit == 3 {
        '3'
    } else if digit == 4 {
        '4'
    } else if digit == 5 {
        '5'
    } else if digit == 6 {
        '6'
    } else if digit == 7 {
        '7'
    } else if digit == 8 {
        '8'
    } else {
        '9'
    }
}

/// Whether `c` is one of the characters `0` to `9`.
pub open spec fn is_decimal_digit(c: char) -> bool {
    c == '0' || c == '1' || c == '2' || c == '3' || c == '4' || c == '5' || c == '6' || c == '7'
        || c == '8' || c == '9'
}

/// The length of `n` written in decimal and padded to `width`.
pub open spec fn padded_len(n: nat, width: nat) -> nat {
    if digit_count(n) > width {
        digit_count(n)
    } else {
        width
    }
}

/// `n` in decimal, with zeros in front where it has fewer than `width`
/// digits: the character at each place is the digit of `n` at that power of
/// ten.
pub open spec fn padded(n: nat, width: nat) -> Seq<char> {
    let len = padded_len(n, width);
    Seq::new(len, |i: int| digit_char((n / pow10((len - 1 - i) as nat)) % 10))
}

/// The timestamp text of the eight fields: each in decimal, padded to the
/// widths 4, 2, 2, 2, 2, 2, 3 and 6, with `-` between them.
pub open spec fn timestamp_text(
    year: nat,
    month: nat,
    day: nat,
    hour: nat,
    minute: nat,
    second: nat,
    millis: nat,
    nanos: nat,
) -> Seq<char> {
    padded(year, 4) + seq!['-'] + padded(month, 2) + seq!['-'] + padded(day, 2) + seq!['-']
        + padded(hour, 2) + seq!['-'] + padded(minute, 2) + seq!['-'] + padded(second, 2)
        + seq!['-'] + padded(millis, 3) + seq!['-'] + padded(nanos, 6)
}

/// Whether the eight fields are those of a reading of the clock: a year from
/// 1970 on, a month and a day of the month, an hour, minute and second of the
/// day, and the milliseconds and the nanosecond field in their ranges.
pub open spec fn is_clock_reading(
    year: nat,
    month: nat,
    day: nat,
    hour: nat,
    minute: nat,
    second: nat,
    millis: nat,
    nanos: nat,
) -> bool {
    &&& year >= 1970
    &&& 1 <= month <= 12
    &&& 1 <= day <= 31
    &&& hour < 24
    &&& minute < 60
    &&& second < 60
    &&& millis < 1_000
    &&& nanos < 1_000_000
}

/// Whether `text` is the timestamp text of a reading of the clock.
pub open spec fn is_clock_timestamp(text: Seq<char>) -> bool {
    exists|
        year: nat,
        month: nat,
        day: nat,
        hour: nat,
        minute: nat,
        second: nat,
        millis: nat,
        nanos: nat,
    |
        is_clock_reading(year, month, day, hour, minute, second, millis, nanos) && text
            == #[trigger] timestamp_text(year, month, day, hour, minute, second, millis, nanos)
}

/// Whether place `i` of a timestamp text holds a separator.
pub open spec fn is_separator_place(i: int) -> bool {
    i == 4 || i == 7 || i == 10 || i == 13 || i == 16 || i == 19 || i == 23
}

/// The fixed pattern of a timestamp text: thirty characters, digits in groups
/// of 4, 2, 2, 2, 2, 2, 3 and 6 with `-` between the groups.
pub open spec fn is_timestamp_pattern(text: Seq<char>) -> bool {
    &&& text.len() == 30
    &&& forall|i: int|
        0 <= i < 30 ==> if is_separator_place(i) {
            text[i] == '-'
        } else {
            is_decimal_digit(#[trigger] text[i])
        }
}

/// The powers of ten that a 64-bit count can reach.
pub proof fn lemma_pow10_values()
    ensures
        pow10(0) == 1,
        pow10(1) == 10,
        pow10(2) == 100,
        pow10(3) == 1_000,
        pow10(4) == 10_000,
        pow10(5) == 100_000,
        pow10(6) == 1_000_000,
        pow10(19) == 10_000_000_000_000_000_000,
        pow10(20) == 100_000_000_000_000_000_000,
{
    reveal_with_fuel(pow10, 21);
}

/// A number lies below the power of ten of its digit count and, unless it
/// has one digit only, not below the power before that one.
pub proof fn lemma_digit_count(n: nat)
    ensures
        n < pow10(digit_count(n)),
        digit_count(n) > 1 ==> pow10((digit_count(n) - 1) as nat) <= n,
        digit_count(n) >= 1,
    decreases n,
{
    reveal_with_fuel(pow10, 2);
    if n >= 10 {
        let rest = n / 10;
        lemma_digit_count(rest);
        assert(digit_count(n) == 1 + digit_count(rest));
        assert(pow10(digit_count(n)) == 10 * pow10(digit_count(rest)));
        if digit_count(rest) > 1 {
            assert(pow10(digit_count(rest)) == 10 * pow10((digit_count(rest) - 1) as nat));
        }
    }
}

/// A larger exponent gives a power of ten that is no smaller, and no power
/// of ten lies below 1.
pub proof fn lemma_pow10_grows(smaller: nat, larger: nat)
    requires
        smaller <= larger,
    ensures
        pow10(smaller) <= pow10(larger),
        pow10(smaller) >= 1,
    decreases larger,
{
    if smaller < larger {
        lemma_pow10_grows(smaller, (larger - 1) as nat);
    } else if smaller > 0 {
        lemma_pow10_grows((smaller - 1) as nat, (smaller - 1) as nat);
    }
}

/// A number below ten to the `width` has no more than `width` digits.
pub proof fn lemma_digit_count_below(n: nat, width: nat)
    requires
        width >= 1,
        n < pow10(width),
    ensures
        digit_count(n) <= width,
{
    lemma_digit_count(n);
    if digit_count(n) > width {
        lemma_pow10_grows(width, (digit_count(n) - 1) as nat);
    }
}

/// A number that fits its width is written with exactly `width` characters,
/// each of them a digit.
pub proof fn lemma_padded_fits(n: nat, width: nat)
    requires
        width >= 1,
        n < pow10(width),
    ensures
        padded(n, width).len() == width,
        forall|i: int| 0 <= i < width ==> is_decimal_digit(#[trigger] padded(n, width)[i]),
{
    lemma_digit_count_below(n, width);
}

/// Whether each of the eight fields fits the width of its group in the
/// timestamp text: the year below 10 000, the millisecond below 1000, the
/// nanosecond field below 1 000 000 and the others below 100.
pub open spec fn fits_timestamp_widths(
    year: nat,
    month: nat,
    day: nat,
    hour: nat,
    minute: nat,
    second: nat,
    millis: nat,
    nanos: nat,
) -> bool {
    &&& year < 10_000
    &&& month < 100
    &&& day < 100
    &&& hour < 100
    &&& minute < 100
    &&& second < 100
    &&& millis < 1_000
    &&& nanos < 1_000_000
}

/// The timestamp text of fields that fit their widths has the fixed pattern:
/// it is thirty characters long, with digits in groups of 4, 2, 2, 2, 2, 2, 3
/// and 6 and `-` between the groups.
pub proof fn lemma_timestamp_pattern(
    year: nat,
    month: nat,
    day: nat,
    hour: nat,
    minute: nat,
    second: nat,
    millis: nat,
    nanos: nat,
)
    requires
        fits_timestamp_widths(year, month, day, hour, minute, second, millis, nanos),
    ensures
        is_timestamp_pattern(
            timestamp_text(year, month, day, hour, minute, second, millis, nanos),
        ),
{
    lemma_pow10_values();
    lemma_padded_fits(year, 4);
    lemma_padded_fits(month, 2);
    lemma_padded_fits(day, 2);
    lemma_padded_fits(hour, 2);
    lemma_padded_fits(minute, 2);
    lemma_padded_fits(second, 2);
    lemma_padded_fits(millis, 3);
    lemma_padded_fits(nanos, 6);
}

/// The timestamp text of a reading of the clock is thirty characters long
/// or longer, and has the fixed pattern where it is thirty long. It is longer
/// only for a year of five digits or more.
pub proof fn lemma_clock_timestamp_pattern(text: Seq<char>)
    requires
        is_clock_timestamp(text),
    ensures
        text.len() >= 30,
        text.len() == 30 ==> is_timestamp_pattern(text),
{
    let (year, month, day, hour, minute, second, millis, nanos) = choose|
        year: nat,
        month: nat,
        day: nat,
        hour: nat,
        minute: nat,
        second: nat,
        millis: nat,
        nanos: nat,
    |
        is_clock_reading(year, month, day, hour, minute, second, millis, nanos) && text
            == #[trigger] timestamp_text(year, month, day, hour, minute, second, millis, nanos);
    lemma_pow10_values();
    lemma_padded_fits(month, 2);
    lemma_padded_fits(day, 2);
    lemma_padded_fits(hour, 2);
    lemma_padded_fits(minute, 2);
    lemma_padded_fits(second, 2);
    lemma_padded_fits(millis, 3);
    lemma_padded_fits(nanos, 6);
    if year < 10_000 {
        lemma_timestamp_pattern(year, month, day, hour, minute, second, millis, nanos);
    } else {
        lemma_digit_count(year);
        if digit_count(year) <= 4 {
            lemma_pow10_grows(digit_count(year), 4);
        }
    }
}

/// The text of one decimal digit.
fn digit_text(digit: u64) -> (text: &'static str)
    requires
        digit < 10,
    ensures
        text@ == seq![digit_char(digit as nat)],
{
    proof {
        reveal_strlit("0");
        reveal_strlit("1");
        reveal_strlit("2");
        reveal_strlit("3");
        reveal_strlit("4");
        reveal_strlit("5");
        reveal_strlit("6");
        reveal_strlit("7");
        reveal_strlit("8");
        reveal_strlit("9");
    }
    let text = if digit == 0 {
        "0"
    } else if digit == 1 {
        "1"
    } else if digit == 2 {
        "2"
    } else if digit == 3 {
        "3"
    } else if digit == 4 {
        "4"
    } else if digit == 5 {
        "5"
    } else if digit == 6 {
        "6"
    } else if digit == 7 {
        "7"
    } else if digit == 8 {
        "8"
    } else {
        "9"
    };
    assert(text@ =~= seq![digit_char(digit as nat)]);
    text
}

/// How many decimal digits `n` has.
fn count_digits(n: u64) -> (count: usize)
    ensures
        count == digit_count(n as nat),
        1 <= count <= 20,
{
    proof {
        lemma_pow10_values();
        lemma_digit_count_below(n as nat, 20);
    }
    let mut count: usize = 1;
    let mut rest: u64 = n;
    while rest >= 10
        invariant
            count >= 1,
            count + digit_count(rest as nat) == digit_count(n as nat) + 1,
            digit_count(n as nat) <= 20,
        decreases rest,
    {
        rest = rest / 10;
        count += 1;
    }
    count
}

/// Ten to the power `places - 1`: the value of the leading place of a number
/// written with `places` digits.
fn leading_place(places: usize) -> (value: u64)
    requires
        1 <= places <= 20,
    ensures
        value == pow10((places - 1) as nat),
{
    proof {
        lemma_pow10_values();
    }
    let mut value: u64 = 1;
    let mut done: usize = 1;
    while done < places
        invariant
            1 <= done <= places <= 20,
            value == pow10((done - 1) as nat),
            pow10(19) == 10_000_000_000_000_000_000,
        decreases places - done,
    {
        proof {
            lemma_pow10_grows(done as nat, 19);
        }
        value = value * 10;
        done += 1;
    }
    value
}

/// Appends `n` in decimal to `out`, with zeros in front where it has fewer
/// than `width` digits.
fn push_padded(out: &mut String, n: u64, width: usize)
    requires
        width <= 20,
    ensures
        final(out)@ == old(out)@ + padded(n as nat, width as nat),
{
    let digits = count_digits(n);
    let len: usize = if digits > width {
        digits
    } else {
        width
    };
    let mut place: u64 = leading_place(len);
    let mut done: usize = 0;
    let ghost text = padded(n as nat, width as nat);
    while done < len
        invariant
            done <= len <= 20,
            len == padded_len(n as nat, width as nat),
            text == padded(n as nat, width as nat),
            out@ == old(out)@ + text.take(done as int),
            done < len ==> place == pow10((len - 1 - done) as nat),
        decreases len - done,
    {
        proof {
            lemma_pow10_grows(0, (len - 1 - done) as nat);
        }
        let digit: u64 = (n / place) % 10;
        out.append(digit_text(digit));
        assert(text.take(done + 1) =~= text.take(done as int).push(text[done as int]));
        done += 1;
        place = place / 10;
    }
    assert(text.take(len as int) =~= text);
}

/// The timestamp text of the eight fields: year, month, day, hour, minute,
/// second, then the milliseconds and the count of nanoseconds below the
/// millisecond, each in decimal and padded with zeros to the widths 4, 2, 2,
/// 2, 2, 2, 3 and 6, with `-` between them.
pub fn format_timestamp(
    year: u64,
    month: u64,
    day: u64,
    hour: u64,
    minute: u64,
    second: u64,
    millis: u64,
    nanos: u64,
) -> (text: String)
    ensures
        text@ == timestamp_text(
            year as nat,
            month as nat,
            day as nat,
            hour as nat,
            minute as nat,
            second as nat,
            millis as nat,
            nanos as nat,
        ),
{
    proof {
        reveal_strlit("-");
    }
    assert("-"@ =~= seq!['-']);
    let mut text = String::new();
    push_padded(&mut text, year, 4);
    text.append("-");
    push_padded(&mut text, month, 2);
    text.append("-");
    push_padded(&mut text, day, 2);
    text.append("-");
    push_padded(&mut text, hour, 2);
    text.append("-");
    push_padded(&mut text, minute, 2);
    text.append("-");
    push_padded(&mut text, second, 2);
    text.append("-");
    push_padded(&mut text, millis, 3);
    text.append("-");
    push_padded(&mut text, nanos, 6);
    text
}

} // verus!
