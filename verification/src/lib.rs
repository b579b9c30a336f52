//! Finds the hyperlinks of one web page and resolves them against the page's
//! own address.

use vstd::prelude::*;

pub mod anchors;
pub mod html_extractors;
pub mod number;
pub mod reference;
pub mod text;
pub mod web;

verus! {

/// Reads the decimal integer that `input` holds between white space.
///
/// Succeeds exactly where `input`, without the white space at its ends, is a
/// sign or none followed by digits, and denotes an integer that an `i32` can
/// hold; the result is then that integer.
pub fn parse_number(input: &str) -> (number: Result<i32, std::num::ParseIntError>)
    ensures
        match number::numeral_as_i32(number::trimmed(input@)) {
            Some(value) => number == Ok::<i32, std::num::ParseIntError>(value),
            None => number is Err,
        },
{
    number::parse_i32(number::trim(input))
}

} // verus!
