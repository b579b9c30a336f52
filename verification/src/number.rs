//! Decimal numerals and the white space around them, as the standard library
//! reads them.

use vstd::prelude::*;

verus! {

/// The error of the standard library's integer parsing. Nothing is known of
/// a value but that it is one.
#[verifier::external_type_specification]
#[verifier::external_body]
pub struct ExParseIntError(std::num::ParseIntError);

/// Whether `c` is white space: a character with the Unicode property
/// `White_Space`.
pub open spec fn is_white_space(c: char) -> bool {
    let code = c as u32;
    ||| 0x0009 <= code <= 0x000D
    ||| code == 0x0020
    ||| code == 0x0085
    ||| code == 0x00A0
    ||| code == 0x1680
    ||| 0x2000 <= code <= 0x200A
    ||| code == 0x2028
    ||| code == 0x2029
    ||| code == 0x202F
    ||| code == 0x205F
    ||| code == 0x3000
}

/// `text` without the white space it begins with.
pub open spec fn trimmed_start(text: Seq<char>) -> Seq<char>
    decreases text.len(),
{
    if text.len() > 0 && is_white_space(text.first()) {
        trimmed_start(text.drop_first())
    } else {
        text
    }
}

/// `text` without the white space it ends with.
pub open spec fn trimmed_end(text: Seq<char>) -> Seq<char>
    decreases text.len(),
{
    if text.len() > 0 && is_white_space(text.last()) {
        trimmed_end(text.drop_last())
    } else {
        text
    }
}

/// `text` without the white space at its two ends.
pub open spec fn trimmed(text: Seq<char>) -> Seq<char> {
    trimmed_end(trimmed_start(text))
}

/// Whether `c` is one of the ten decimal digits.
pub open spec fn is_digit(c: char) -> bool {
    '0' <= c <= '9'
}

/// The number that a run of decimal digits denotes; 0 for the empty run.
pub open spec fn digits_value(digits: Seq<char>) -> int
    decreases digits.len(),
{
    if digits.len() == 0 {
        0
    } else {
        10 * digits_value(digits.drop_last()) + (digits.last() as int - '0' as int)
    }
}

/// Whether `digits` holds decimal digits and nothing else.
pub open spec fn all_digits(digits: Seq<char>) -> bool {
    forall|i: int| 0 <= i < digits.len() ==> is_digit(#[trigger] digits[i])
}

/// Whether `numeral` begins with a sign, `+` or `-`.
pub open spec fn has_sign(numeral: Seq<char>) -> bool {
    numeral.len() > 0 && (numeral[0] == '+' || numeral[0] == '-')
}

/// What follows the sign of `numeral`, or all of it where it has none.
pub open spec fn unsigned_part(numeral: Seq<char>) -> Seq<char> {
    if has_sign(numeral) {
        numeral.skip(1)
    } else {
        numeral
    }
}

/// The integer that `numeral` denotes: it is a sign `+` or `-`, or none, and
/// then one decimal digit or more, and nothing else. `None` for any other
/// text.
pub open spec fn numeral_value(numeral: Seq<char>) -> Option<int> {
    let digits = unsigned_part(numeral);
    if digits.len() > 0 && all_digits(digits) {
        if has_sign(numeral) && numeral[0] == '-' {
            Some(-digits_value(digits))
        } else {
            Some(digits_value(digits))
        }
    } else {
        None
    }
}

/// The `i32` that `numeral` denotes, where it denotes an integer and `i32`
/// can hold it.
pub open spec fn numeral_as_i32(numeral: Seq<char>) -> Option<i32> {
    match numeral_value(numeral) {
        Some(value) => if i32::MIN <= value <= i32::MAX {
            Some(value as i32)
        } else {
            None
        },
        None => None,
    }
}

/// The standard library's `str::trim`.
///
/// Trusted: it returns the slice that is left when the white space at both
/// ends is taken away, white space being the characters with the Unicode
/// property `White_Space`.
#[verifier::external_body]
pub(crate) fn trim(text: &str) -> (inner: &str)
    ensures
        inner@ == trimmed(text@),
{
    text.trim()
}

/// The standard library's `str::parse` to an `i32`.
///
/// Trusted: it accepts a sign `+` or `-`, or none, followed by one decimal
/// digit or more and nothing else, and returns the integer so written where
/// an `i32` can hold it. Any other text, and any integer out of range, is an
/// error.
#[verifier::external_body]
pub(crate) fn parse_i32(numeral: &str) -> (number: Result<i32, std::num::ParseIntError>)
    ensures
        match numeral_as_i32(numeral@) {
            Some(value) => number == Ok::<i32, std::num::ParseIntError>(value),
            None => number is Err,
        },
{
    numeral.parse::<i32>()
}

} // verus!
