//! Text as the standard library reads it: trimming, lower case and decimal integers.

use std::num::ParseIntError;
use vstd::prelude::*;
use vstd::string::StringExecFns;

verus! {

/// The reason for which the standard library refused to read an integer.
#[verifier::external_type_specification]
#[verifier::external_body]
pub struct ExParseIntError(ParseIntError);

/// The text that `str::to_lowercase` makes of `text`.
pub uninterp spec fn lowercase_of(text: Seq<char>) -> Seq<char>;

/// Whether `c` has the Unicode property `White_Space`: the controls from
/// tab to carriage return, the space, the next line control, and the spaces
/// and separators beyond ASCII.
pub open spec fn is_white_space(c: char) -> bool {
    ('\u{9}' <= c && c <= '\u{d}') || c == ' ' || c == '\u{85}' || c == '\u{a0}' || c
        == '\u{1680}' || ('\u{2000}' <= c && c <= '\u{200a}') || c == '\u{2028}' || c
        == '\u{2029}' || c == '\u{202f}' || c == '\u{205f}' || c == '\u{3000}'
}

/// `text` without the white space that it begins with.
pub open spec fn trim_start_of(text: Seq<char>) -> Seq<char>
    decreases text.len(),
{
    if text.len() > 0 && is_white_space(text[0]) {
        trim_start_of(text.skip(1))
    } else {
        text
    }
}

/// `text` without the white space that it ends with.
pub open spec fn trim_end_of(text: Seq<char>) -> Seq<char>
    decreases text.len(),
{
    if text.len() > 0 && is_white_space(text.last()) {
        trim_end_of(text.drop_last())
    } else {
        text
    }
}

/// `text` without the white space at its two ends.
pub open spec fn trim_of(text: Seq<char>) -> Seq<char> {
    trim_end_of(trim_start_of(text))
}

/// Wraps `str::trim`, which removes the leading and trailing white space of
/// a string, where white space is what has the Unicode property
/// `White_Space`.
#[verifier::external_body]
pub(crate) fn trimmed<'a>(text: &'a str) -> (result: &'a str)
    ensures
        result@ == trim_of(text@),
{
    text.trim()
}

/// Wraps `str::to_lowercase`, which maps a string to lower case as Unicode
/// defines it. The mapping is left to the standard library: the result is
/// only named.
#[verifier::external_body]
pub(crate) fn lowercased(text: &str) -> (result: String)
    ensures
        result@ == lowercase_of(text@),
{
    text.to_lowercase()
}

/// Whether `c` is one of the ten decimal digits.
pub open spec fn is_digit(c: char) -> bool {
    '0' <= c <= '9'
}

/// Whether `text` holds decimal digits and nothing else.
pub open spec fn all_digits(text: Seq<char>) -> bool {
    forall|i: int| 0 <= i < text.len() ==> is_digit(#[trigger] text[i])
}

/// The number that a run of decimal digits writes.
pub open spec fn digits_value(digits: Seq<char>) -> int
    decreases digits.len(),
{
    if digits.len() == 0 {
        0
    } else {
        digits_value(digits.drop_last()) * 10 + (digits.last() as int - '0' as int)
    }
}

/// The digits of `text`, without the sign that may stand before them.
pub open spec fn unsigned_part(text: Seq<char>) -> Seq<char> {
    if text.len() > 0 && (text[0] == '-' || text[0] == '+') {
        text.skip(1)
    } else {
        text
    }
}

/// The integer that `text` writes in decimal, where it writes one between
/// `min` and `max`: an optional `+` or `-`, then one digit or more, and
/// nothing else.
pub open spec fn decimal_value(text: Seq<char>, min: int, max: int) -> Option<int> {
    let digits = unsigned_part(text);
    let magnitude = digits_value(digits);
    let value = if text.len() > 0 && text[0] == '-' {
        -magnitude
    } else {
        magnitude
    };
    if digits.len() > 0 && all_digits(digits) && min <= value <= max {
        Some(value)
    } else {
        None
    }
}

/// Wraps `str::parse::<i16>`. The standard library reads an optional sign
/// followed by decimal digits, and fails on an empty string, on any other
/// character and on a number that an `i16` cannot hold.
#[verifier::external_body]
pub(crate) fn parse_i16(text: &str) -> (result: Result<i16, ParseIntError>)
    ensures
        result is Ok <==> decimal_value(text@, i16::MIN as int, i16::MAX as int) is Some,
        result matches Ok(value) ==> decimal_value(text@, i16::MIN as int, i16::MAX as int)
            == Some(value as int),
{
    text.parse::<i16>()
}

/// Wraps `str::parse::<i32>`. The standard library reads an optional sign
/// followed by decimal digits, and fails on an empty string, on any other
/// character and on a number that an `i32` cannot hold.
#[verifier::external_body]
pub(crate) fn parse_i32(text: &str) -> (result: Result<i32, ParseIntError>)
    ensures
        result is Ok <==> decimal_value(text@, i32::MIN as int, i32::MAX as int) is Some,
        result matches Ok(value) ==> decimal_value(text@, i32::MIN as int, i32::MAX as int)
            == Some(value as int),
{
    text.parse::<i32>()
}

/// Wraps `str::parse::<i64>`. The standard library reads an optional sign
/// followed by decimal digits, and fails on an empty string, on any other
/// character and on a number that an `i64` cannot hold.
#[verifier::external_body]
pub(crate) fn parse_i64(text: &str) -> (result: Result<i64, ParseIntError>)
    ensures
        result is Ok <==> decimal_value(text@, i64::MIN as int, i64::MAX as int) is Some,
        result matches Ok(value) ==> decimal_value(text@, i64::MIN as int, i64::MAX as int)
            == Some(value as int),
{
    text.parse::<i64>()
}

/// Whether `text` reads exactly as `literal`.
pub fn text_is(text: &str, literal: &str) -> (same: bool)
    ensures
        same == (text@ == literal@),
{
    let left = text.to_owned();
    let right = literal.to_owned();
    left == right
}

/// The text of one digit, of base ten or sixteen.
pub open spec fn digit_text(digit: int) -> Seq<char> {
    if digit == 0 {
        "0"@
    } else if digit == 1 {
        "1"@
    } else if digit == 2 {
        "2"@
    } else if digit == 3 {
        "3"@
    } else if digit == 4 {
        "4"@
    } else if digit == 5 {
        "5"@
    } else if digit == 6 {
        "6"@
    } else if digit == 7 {
        "7"@
    } else if digit == 8 {
        "8"@
    } else if digit == 9 {
        "9"@
    } else if digit == 10 {
        "a"@
    } else if digit == 11 {
        "b"@
    } else if digit == 12 {
        "c"@
    } else if digit == 13 {
        "d"@
    } else if digit == 14 {
        "e"@
    } else {
        "f"@
    }
}

/// The text of a natural number in base `base`, without leading zeros.
pub open spec fn natural_text(value: nat, base: nat) -> Seq<char>
    decreases value,
{
    if base < 2 || value < base {
        digit_text(value as int)
    } else {
        proof {
            assert(value / base < value) by (nonlinear_arith)
                requires
                    base >= 2,
                    value >= base,
            ;
        }
        natural_text(value / base, base) + digit_text((value % base) as int)
    }
}

/// The text of an integer in decimal, with `-` before a negative one.
pub open spec fn integer_text(value: int) -> Seq<char> {
    if value < 0 {
        "-"@ + natural_text((-value) as nat, 10)
    } else {
        natural_text(value as nat, 10)
    }
}

/// The numbers of `bytes` in decimal, with `, ` between them.
pub open spec fn joined_bytes_text(bytes: Seq<u8>) -> Seq<char>
    decreases bytes.len(),
{
    if bytes.len() == 0 {
        Seq::empty()
    } else if bytes.len() == 1 {
        natural_text(bytes[0] as nat, 10)
    } else {
        joined_bytes_text(bytes.drop_last()) + ", "@ + natural_text(bytes.last() as nat, 10)
    }
}

/// The text of a byte buffer as a list: its numbers between square brackets.
pub open spec fn bytes_text(bytes: Seq<u8>) -> Seq<char> {
    "["@ + joined_bytes_text(bytes) + "]"@
}

/// The text of a decimal digit is the one character that writes it.
pub proof fn lemma_digit_text(digit: int)
    requires
        0 <= digit < 10,
    ensures
        digit_text(digit).len() == 1,
        is_digit(digit_text(digit)[0]),
        digit_text(digit)[0] as int - '0' as int == digit,
{
    reveal_strlit("0");
    reveal_strlit("1");
    reveal_strlit("2");
    reveal_strlit("3");
    reveal_strlit("4");
    reveal_strlit("5");
    reveal_strlit("6");
    reveal_strlit("7");
    reveal_strlit("8");
    reveal_strlit("9");
}

/// The decimal text of a natural number is made of digits, and they write the number.
pub proof fn lemma_natural_text(value: nat)
    ensures
        natural_text(value, 10).len() > 0,
        all_digits(natural_text(value, 10)),
        digits_value(natural_text(value, 10)) == value,
    decreases value,
{
    let text = natural_text(value, 10);
    if value < 10 {
        lemma_digit_text(value as int);
        assert(text.drop_last() =~= Seq::<char>::empty());
        assert(digits_value(text.drop_last()) == 0);
    } else {
        let head = natural_text(value / 10, 10);
        let tail = digit_text((value % 10) as int);
        lemma_natural_text(value / 10);
        lemma_digit_text((value % 10) as int);
        assert(text == head + tail);
        assert(text.drop_last() =~= head);
        assert(text.last() == tail[0]);
        assert forall|i: int| 0 <= i < text.len() implies is_digit(#[trigger] text[i]) by {
            if i < head.len() {
                assert(text[i] == head[i]);
            } else {
                assert(text[i] == tail[0]);
            }
        }
    }
}

/// The decimal text of an integer has no white space at its ends.
pub proof fn lemma_trim_keeps_integer_text(value: int)
    ensures
        trim_of(integer_text(value)) == integer_text(value),
{
    let text = integer_text(value);
    if value < 0 {
        let digits = natural_text((-value) as nat, 10);
        lemma_natural_text((-value) as nat);
        reveal_strlit("-");
        assert(text[0] == '-');
        assert(text.last() == digits.last());
        assert(is_digit(digits[digits.len() - 1]));
    } else {
        lemma_natural_text(value as nat);
        assert(is_digit(text[0]));
        assert(is_digit(text[text.len() - 1]));
    }
    assert(!is_white_space(text[0]));
    assert(!is_white_space(text.last()));
    assert(trim_start_of(text) == text);
}

/// An integer that is written in decimal is read back as it was, between
/// whatever bounds hold it.
pub proof fn lemma_decimal_round_trip(value: int, min: int, max: int)
    requires
        min <= value <= max,
    ensures
        decimal_value(integer_text(value), min, max) == Some(value),
{
    let text = integer_text(value);
    if value < 0 {
        let digits = natural_text((-value) as nat, 10);
        lemma_natural_text((-value) as nat);
        reveal_strlit("-");
        assert(text[0] == '-');
        assert(unsigned_part(text) =~= digits);
    } else {
        lemma_natural_text(value as nat);
        assert(is_digit(text[0]));
        assert(unsigned_part(text) == text);
    }
}

/// The string of one digit.
fn digit_str(digit: u8) -> (text: &'static str)
    requires
        digit < 16,
    ensures
        text@ == digit_text(digit as int),
{
    if digit == 0 {
        "0"
    } else if digit == 1 {
        "1"
    } else if digit == 2 {
        "2"
    } else if digit == 3 {
        "3"
    } else if digit == 4 {
        "4"
    } else if digit == 5 {
        "5"
    } else if digit == 6 {
        "6"
    } else if digit == 7 {
        "7"
    } else if digit == 8 {
        "8"
    } else if digit == 9 {
        "9"
    } else if digit == 10 {
        "a"
    } else if digit == 11 {
        "b"
    } else if digit == 12 {
        "c"
    } else if digit == 13 {
        "d"
    } else if digit == 14 {
        "e"
    } else {
        "f"
    }
}

/// Writes a natural number in decimal.
pub fn decimal_string(value: u64) -> (text: String)
    ensures
        text@ == natural_text(value as nat, 10),
{
    natural_string(value, 10)
}

/// Writes a natural number in hexadecimal, with the letters in lower case.
pub fn hexadecimal_string(value: u64) -> (text: String)
    ensures
        text@ == natural_text(value as nat, 16),
{
    natural_string(value, 16)
}

/// Writes a natural number in base ten or sixteen.
fn natural_string(value: u64, base: u64) -> (text: String)
    requires
        base == 10 || base == 16,
    ensures
        text@ == natural_text(value as nat, base as nat),
    decreases value,
{
    if value < base {
        String::from_str(digit_str(value as u8))
    } else {
        let mut text = natural_string(value / base, base);
        text.append(digit_str((value % base) as u8));
        text
    }
}

/// Writes an integer in decimal.
pub fn integer_string(value: i64) -> (text: String)
    ensures
        text@ == integer_text(value as int),
{
    if value < 0 {
        let magnitude: u64 = (-(value + 1)) as u64 + 1;
        let mut text = String::from_str("-");
        text.append(decimal_string(magnitude).as_str());
        text
    } else {
        decimal_string(value as u64)
    }
}

/// Writes a byte buffer as a list of numbers.
pub fn bytes_string(bytes: &[u8]) -> (text: String)
    ensures
        text@ == bytes_text(bytes@),
{
    let mut text = String::from_str("[");
    let mut index: usize = 0;
    while index < bytes.len()
        invariant
            index <= bytes@.len(),
            text@ == "["@ + joined_bytes_text(bytes@.take(index as int)),
        decreases bytes@.len() - index,
    {
        if index > 0 {
            text.append(", ");
        }
        text.append(decimal_string(bytes[index] as u64).as_str());
        proof {
            let next = bytes@.take(index + 1);
            assert(next.drop_last() =~= bytes@.take(index as int));
            assert(next.last() == bytes@[index as int]);
            assert(text@ =~= "["@ + joined_bytes_text(next));
        }
        index = index + 1;
    }
    assert(bytes@.take(index as int) =~= bytes@);
    text.append("]");
    text
}

/// Wraps `char::to_string`: the string that holds the one character.
#[verifier::external_body]
pub(crate) fn char_string(c: char) -> (text: String)
    ensures
        text@ == seq![c],
{
    c.to_string()
}

} // verus!
