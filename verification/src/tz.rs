//! The local zone's offset from UTC: the shape of its text, `+HH:MM`, and the
//! whole hours read from that text. Looking the offset up on the host is left
//! to the caller, who hands the text in.

use crate::stamp::is_decimal_digit;
use vstd::prelude::*;
use vstd::string::{StringExecFns, StringSliceAdditionalSpecFns};
use vstd::utf8::{is_ascii_chars, is_ascii_chars_encode_utf8};

verus! {

/// The ASCII byte `+`.
pub const PLUS: u8 = 43;

/// The ASCII byte `-`.
pub const MINUS: u8 = 45;

/// The ASCII byte `:`.
pub const COLON: u8 = 58;

/// The ASCII byte `0`.
pub const DIGIT_ZERO: u8 = 48;

/// The ASCII byte `9`.
pub const DIGIT_NINE: u8 = 57;

/// The largest magnitude that the digits of an offset may spell: 2^63.
pub const MAGNITUDE_LIMIT: u128 = 0x8000_0000_0000_0000;

/// The number that the digit characters at `at` and `at + 1` spell.
pub open spec fn two_digit_value(text: Seq<char>, at: int) -> int {
    10 * (text[at] as u32 - 48) + (text[at + 1] as u32 - 48)
}

/// The shape of an offset text: a sign, two digits of hours up to 23, a colon
/// and two digits of minutes up to 59; where the offset is no whole number of
/// minutes, a second colon and two digits of seconds from 01 to 59 follow.
pub open spec fn is_offset_text(text: Seq<char>) -> bool {
    &&& text.len() == 6 || text.len() == 9
    &&& text[0] == '+' || text[0] == '-'
    &&& is_decimal_digit(text[1])
    &&& is_decimal_digit(text[2])
    &&& two_digit_value(text, 1) <= 23
    &&& text[3] == ':'
    &&& is_decimal_digit(text[4])
    &&& is_decimal_digit(text[5])
    &&& two_digit_value(text, 4) <= 59
    &&& text.len() == 9 ==> {
        &&& text[6] == ':'
        &&& is_decimal_digit(text[7])
        &&& is_decimal_digit(text[8])
        &&& 1 <= two_digit_value(text, 7) <= 59
    }
}

/// Whether `byte` is one of the ASCII digits.
pub open spec fn is_digit_byte(byte: u8) -> bool {
    DIGIT_ZERO <= byte <= DIGIT_NINE
}

/// Whether every byte of `digits` is an ASCII digit.
pub open spec fn all_digit_bytes(digits: Seq<u8>) -> bool {
    forall|i: int| 0 <= i < digits.len() ==> is_digit_byte(#[trigger] digits[i])
}

/// The number that a run of ASCII digits spells.
pub open spec fn decimal_value(digits: Seq<u8>) -> nat
    decreases digits.len(),
{
    if digits.len() == 0 {
        0
    } else {
        10 * decimal_value(digits.drop_last()) + (digits.last() - DIGIT_ZERO) as nat
    }
}

/// The number that `text` spells as a decimal with an optional sign: one `+`
/// or `-` at most, then one digit or more and nothing else.
pub open spec fn signed_decimal(text: Seq<u8>) -> Option<int> {
    let digits = if text.len() > 0 && (text[0] == PLUS || text[0] == MINUS) {
        text.skip(1)
    } else {
        text
    };
    if digits.len() == 0 || !all_digit_bytes(digits) {
        None
    } else if text[0] == MINUS {
        Some(-(decimal_value(digits) as int))
    } else {
        Some(decimal_value(digits) as int)
    }
}

/// Whether `value` is a value of `i64`.
pub open spec fn fits_i64(value: int) -> bool {
    i64::MIN <= value <= i64::MAX
}

/// The hours that the part of an offset text before its colon spells.
///
/// The first byte is the sign: `+` for east of UTC, any other ASCII byte for
/// west. What follows is a signed decimal in its own right. A part that is
/// empty, that begins with a byte outside ASCII, whose rest is no decimal, or
/// whose value or signed value is no `i64`, spells no offset and counts as 0.
pub open spec fn head_hours(head: Seq<u8>) -> int {
    if head.len() == 0 || head[0] >= 0x80 {
        0
    } else {
        match signed_decimal(head.skip(1)) {
            Some(value) => {
                let hours = if head[0] == PLUS {
                    value
                } else {
                    -value
                };
                if fits_i64(value) && fits_i64(hours) {
                    hours
                } else {
                    0
                }
            },
            None => 0,
        }
    }
}

/// Whether `at` is the place of the one colon of `text`.
pub open spec fn is_only_colon(text: Seq<u8>, at: int) -> bool {
    &&& 0 <= at < text.len()
    &&& forall|i: int| 0 <= i < text.len() ==> ((#[trigger] text[i]) == COLON <==> i == at)
}

/// The whole hours of the offset that `text` spells: where `text` holds
/// exactly one colon, the hours that the part before it spells; else 0.
pub open spec fn offset_hours_of(text: Seq<u8>) -> int {
    if exists|at: int| is_only_colon(text, at) {
        head_hours(text.take(choose|at: int| is_only_colon(text, at)))
    } else {
        0
    }
}

/// The digits read so far never spell more than all of them.
pub proof fn lemma_decimal_value_grows(digits: Seq<u8>, read: int)
    requires
        0 <= read <= digits.len(),
    ensures
        decimal_value(digits.take(read)) <= decimal_value(digits),
    decreases digits.len(),
{
    if read < digits.len() {
        lemma_decimal_value_grows(digits.drop_last(), read);
        assert(digits.drop_last().take(read) =~= digits.take(read));
    } else {
        assert(digits.take(read) =~= digits);
    }
}

/// The hours that an offset text spells: those before the colon, with the
/// sign in front, where hours and minutes are all there is, and 0 where
/// seconds follow.
pub open spec fn offset_text_hours(text: Seq<char>) -> int {
    if text.len() == 6 {
        if text[0] == '+' {
            two_digit_value(text, 1)
        } else {
            -two_digit_value(text, 1)
        }
    } else {
        0
    }
}

/// Read as an offset, the bytes of an offset text spell its hours, which lie
/// within 23 of zero.
pub proof fn lemma_offset_text_hours(text: Seq<char>, bytes: Seq<u8>)
    requires
        is_offset_text(text),
        bytes.len() == text.len(),
        forall|i: int| 0 <= i < text.len() ==> bytes[i] == text[i] as u8,
    ensures
        offset_hours_of(bytes) == offset_text_hours(text),
        -23 <= offset_text_hours(text) <= 23,
{
    if text.len() == 6 {
        assert(is_only_colon(bytes, 3)) by {
            assert forall|i: int| 0 <= i < bytes.len() implies ((#[trigger] bytes[i]) == COLON
                <==> i == 3) by {
                assert(bytes[i] == text[i] as u8);
            }
        }
        let chosen = choose|at: int| is_only_colon(bytes, at);
        assert(bytes[3] == COLON <==> 3 == chosen);
        let digits = bytes.take(3).skip(1);
        assert(digits[0] == bytes[1]);
        assert(digits[1] == bytes[2]);
        assert(digits.drop_last().last() == bytes[1]);
        assert(decimal_value(digits) == two_digit_value(text, 1)) by {
            reveal_with_fuel(decimal_value, 3);
        }
    } else {
        assert forall|at: int| !is_only_colon(bytes, at) by {
            if is_only_colon(bytes, at) {
                assert(bytes[3] == COLON <==> 3 == at);
                assert(bytes[6] == COLON <==> 6 == at);
            }
        }
    }
}

/// The offset text of UTC itself, which stands in where the zone's offset
/// cannot be found.
pub open spec fn utc_offset_text() -> Seq<char> {
    "+00:00"@
}

/// The text of UTC is an offset text, and it spells no hours.
pub proof fn lemma_utc_offset_text()
    ensures
        is_offset_text(utc_offset_text()),
        offset_text_hours(utc_offset_text()) == 0,
{
    reveal_strlit("+00:00");
}

/// The hours that the bytes of `text` before `end` spell.
#[verifier::loop_isolation(false)]
fn hours_before(text: &[u8], end: usize) -> (hours: i64)
    requires
        end <= text.len(),
    ensures
        hours == head_hours(text@.take(end as int)),
{
    if end == 0 {
        return 0;
    }
    let first: u8 = text[0];
    if first >= 0x80 {
        return 0;
    }
    let mut from: usize = 1;
    let mut negative: bool = false;
    if end > 1 {
        let lead: u8 = text[1];
        if lead == PLUS {
            from = 2;
        } else if lead == MINUS {
            from = 2;
            negative = true;
        }
    }
    let ghost body = text@.take(end as int).skip(1);
    let ghost digits = text@.subrange(from as int, end as int);
    assert(digits =~= if from == 2 {
        body.skip(1)
    } else {
        body
    });
    if from == end {
        return 0;
    }
    let mut value: u128 = 0;
    let mut at: usize = from;
    while at < end
        invariant
            from <= at <= end <= text.len(),
            digits == text@.subrange(from as int, end as int),
            all_digit_bytes(digits.take(at - from)),
            value == decimal_value(digits.take(at - from)),
            value <= MAGNITUDE_LIMIT,
        decreases end - at,
    {
        let byte: u8 = text[at];
        if byte < DIGIT_ZERO || byte > DIGIT_NINE {
            assert(!is_digit_byte(digits[at - from]));
            return 0;
        }
        let ghost read = digits.take(at - from + 1);
        assert(read.drop_last() =~= digits.take(at - from));
        assert(read.last() == byte);
        assert(all_digit_bytes(read)) by {
            assert forall|i: int| 0 <= i < read.len() implies is_digit_byte(#[trigger] read[i]) by {
                if i < at - from {
                    assert(read[i] == digits.take(at - from)[i]);
                }
            }
        }
        value = value * 10 + (byte - DIGIT_ZERO) as u128;
        if value > MAGNITUDE_LIMIT {
            proof {
                lemma_decimal_value_grows(digits, at - from + 1);
            }
            return 0;
        }
        at += 1;
    }
    assert(digits.take(end - from) =~= digits);
    let magnitude: i128 = value as i128;
    let inner: i128 = if negative {
        -magnitude
    } else {
        magnitude
    };
    let outer: i128 = if first == PLUS {
        inner
    } else {
        -inner
    };
    if inner > i64::MAX as i128 || outer > i64::MAX as i128 {
        0
    } else {
        outer as i64
    }
}

/// The whole hours of the offset that the bytes of `text` spell: the text
/// must hold exactly one colon, and the part before it gives the hours. Any
/// other text counts as no offset, which is 0.
pub fn offset_hours(text: &[u8]) -> (hours: i64)
    ensures
        hours == offset_hours_of(text@),
{
    let mut colon: usize = 0;
    while colon < text.len() && text[colon] != COLON
        invariant
            colon <= text.len(),
            forall|i: int| 0 <= i < colon ==> text@[i] != COLON,
        decreases text.len() - colon,
    {
        colon += 1;
    }
    if colon == text.len() {
        assert forall|at: int| !is_only_colon(text@, at) by {
            if 0 <= at < text@.len() {
                assert(text@[at] != COLON);
            }
        }
        return 0;
    }
    let mut after: usize = colon + 1;
    while after < text.len()
        invariant
            colon < after <= text.len(),
            text@[colon as int] == COLON,
            forall|i: int| 0 <= i < colon ==> text@[i] != COLON,
            forall|i: int| colon < i < after ==> text@[i] != COLON,
        decreases text.len() - after,
    {
        if text[after] == COLON {
            assert forall|at: int| !is_only_colon(text@, at) by {
                if is_only_colon(text@, at) {
                    assert(text@[colon as int] == COLON <==> colon == at);
                    assert(text@[after as int] == COLON <==> after == at);
                }
            }
            return 0;
        }
        after += 1;
    }
    assert(is_only_colon(text@, colon as int));
    hours_before(text, colon)
}

/// The offset text that was found, or that of UTC where none was.
pub fn text_or_utc(found: Option<String>) -> (text: String)
    ensures
        found matches Some(t) ==> text@ == t@,
        found is None ==> text@ == utc_offset_text(),
{
    match found {
        Some(text) => text,
        None => String::from_str("+00:00"),
    }
}

/// An offset text is ASCII, so its bytes are its characters, and read as an
/// offset they spell its hours.
pub proof fn lemma_offset_text_bytes(text: &str)
    requires
        is_offset_text(text@),
    ensures
        offset_hours_of(text.spec_bytes()) == offset_text_hours(text@),
        -23 <= offset_text_hours(text@) <= 23,
{
    assert(is_ascii_chars(text@)) by {
        assert forall|i: int| 0 <= i < text@.len() implies '\0' <= #[trigger] text@[i]
            <= '\u{7f}' by {
            assert(i == 0 || i == 1 || i == 2 || i == 3 || i == 4 || i == 5 || i == 6 || i == 7
                || i == 8);
        }
    }
    is_ascii_chars_encode_utf8(text@);
    lemma_offset_text_hours(text@, text.spec_bytes());
}

/// The zone's offset from UTC in whole hours, east positive, read from the
/// text of the offset, `+HH:MM`: the hours before the one colon, with the
/// sign. A text that spells no offset counts as 0, and so does an offset that
/// is no whole number of minutes, whose text holds two colons.
pub fn tz_number(text: &str) -> (hours: i64)
    ensures
        hours == offset_hours_of(text.spec_bytes()),
        is_offset_text(text@) ==> hours == offset_text_hours(text@) && -23 <= hours <= 23,
{
    proof {
        if is_offset_text(text@) {
            lemma_offset_text_bytes(text);
        }
    }
    offset_hours(text.as_bytes())
}

} // verus!
