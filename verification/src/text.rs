//! Operations on text that the standard library carries out.

use vstd::prelude::*;

verus! {

/// `text` in lower case, as `str::to_lowercase` writes it.
pub uninterp spec fn lowercase_of(text: Seq<char>) -> Seq<char>;

/// `text` without the white space at its two ends, as `str::trim` leaves it.
pub uninterp spec fn trimmed_of(text: Seq<char>) -> Seq<char>;

/// Whether every character of `text` is one of the digits `0` to `9`.
pub open spec fn all_digits(text: Seq<char>) -> bool {
    forall|i: int| 0 <= i < text.len() ==> 48 <= #[trigger] (text[i] as u32) <= 57
}

/// The number that a run of digits spells in decimal; 0 for none.
pub open spec fn decimal_value(digits: Seq<char>) -> int
    decreases digits.len(),
{
    if digits.len() == 0 {
        0
    } else {
        decimal_value(digits.drop_last()) * 10 + (digits.last() as u32 - 48)
    }
}

/// The integer that `text` spells: an optional sign `+` or `-`, then one or
/// more digits and nothing else, with a value that an `i64` holds. `None` for
/// every other text.
pub open spec fn parsed_i64(text: Seq<char>) -> Option<i64> {
    let signed = text.len() > 0 && (text[0] == '-' || text[0] == '+');
    let digits = if signed {
        text.skip(1)
    } else {
        text
    };
    let value = if signed && text[0] == '-' {
        -decimal_value(digits)
    } else {
        decimal_value(digits)
    };
    if digits.len() > 0 && all_digits(digits) && i64::MIN <= value <= i64::MAX {
        Some(value as i64)
    } else {
        None
    }
}

/// Calls `str::to_lowercase`.
#[verifier::external_body]
pub(crate) fn lowercased(text: &str) -> (r: String)
    ensures
        r@ == lowercase_of(text@),
{
    text.to_lowercase()
}

/// Calls `str::trim`.
#[verifier::external_body]
pub(crate) fn trimmed(text: &str) -> (r: &str)
    ensures
        r@ == trimmed_of(text@),
{
    text.trim()
}

/// Calls `str::parse::<i64>`, which reads an optional sign followed by
/// decimal digits and fails on an empty text, on any other character and on
/// a value out of range. What the error says is dropped.
#[verifier::external_body]
pub(crate) fn parse_i64(text: &str) -> (r: Option<i64>)
    ensures
        r == parsed_i64(text@),
{
    text.parse::<i64>().ok()
}

/// Whether the two texts are the same, character for character.
pub fn same_text(left: &str, right: &str) -> (r: bool)
    ensures
        r == (left@ == right@),
{
    let a: String = left.to_owned();
    let b: String = right.to_owned();
    a == b
}

} // verus!
