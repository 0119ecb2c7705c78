//! Identifiers. Every record and every caller is known by a 128-bit
//! identifier, written in text as a UUID.

use vstd::prelude::*;
use vstd::arithmetic::power::pow;

verus! {

/// The identifier that a text denotes as a UUID, if it denotes one.
pub uninterp spec fn uuid_of_text(text: Seq<char>) -> Option<u128>;

/// The sixteen lower-case hexadecimal digits.
pub open spec fn hex_digits() -> Seq<char> {
    seq!['0', '1', '2', '3', '4', '5', '6', '7', '8', '9', 'a', 'b', 'c', 'd', 'e', 'f']
}

/// The `k`-th of the 32 hexadecimal digits of `id`, the most significant
/// being digit 0.
pub open spec fn hex_digit_of(id: u128, k: int) -> char {
    hex_digits()[(id as int / pow(16, (31 - k) as nat)) % 16]
}

/// The canonical text of an identifier: its 32 lower-case hexadecimal
/// digits in groups of 8, 4, 4, 4 and 12, with a hyphen between groups.
pub open spec fn hyphenated(id: u128) -> Seq<char> {
    Seq::new(
        36,
        |i: int|
            if i == 8 || i == 13 || i == 18 || i == 23 {
                '-'
            } else if i < 8 {
                hex_digit_of(id, i)
            } else if i < 13 {
                hex_digit_of(id, i - 1)
            } else if i < 18 {
                hex_digit_of(id, i - 2)
            } else if i < 23 {
                hex_digit_of(id, i - 3)
            } else {
                hex_digit_of(id, i - 4)
            },
    )
}

/// Reads a UUID with `uuid::Uuid::parse_str` and hands its value out with
/// `Uuid::as_u128`. The contract only names the result: the same text always
/// denotes the same identifier, or none.
#[verifier::external_body]
pub(crate) fn parse_uuid(text: &str) -> (id: Option<u128>)
    ensures
        id == uuid_of_text(text@),
{
    match uuid::Uuid::parse_str(text) {
        Ok(parsed) => Some(parsed.as_u128()),
        Err(_) => None,
    }
}

/// Writes an identifier as `uuid::Uuid` displays it: `Uuid::from_u128`
/// followed by `to_string`, which gives the hyphenated lower-case form.
#[verifier::external_body]
pub(crate) fn uuid_text(id: u128) -> (text: String)
    ensures
        text@ == hyphenated(id),
{
    uuid::Uuid::from_u128(id).to_string()
}

} // verus!
