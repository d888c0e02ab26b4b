//! Identifiers. A user, a buddy and an interaction are each known by a 128-bit
//! number; in text it is written as 32 lowercase hexadecimal digits in five
//! groups, `xxxxxxxx-xxxx-xxxx-xxxx-xxxxxxxxxxxx`, most significant digit
//! first.

use vstd::arithmetic::power::pow;
use vstd::prelude::*;

verus! {

/// The sixteen hexadecimal digits, in order.
pub open spec fn hex_digits() -> Seq<char> {
    seq!['0', '1', '2', '3', '4', '5', '6', '7', '8', '9', 'a', 'b', 'c', 'd', 'e', 'f']
}

/// True of the four places of the text that hold a hyphen.
pub open spec fn is_hyphen_place(i: int) -> bool {
    i == 8 || i == 13 || i == 18 || i == 23
}

/// Which of the 32 digits stands at place `i` of the text.
pub open spec fn digit_index(i: int) -> int {
    if i < 8 {
        i
    } else if i < 13 {
        i - 1
    } else if i < 18 {
        i - 2
    } else if i < 23 {
        i - 3
    } else {
        i - 4
    }
}

/// The `k`-th hexadecimal digit of `id`, counted from the most significant.
pub open spec fn digit_value(id: u128, k: int) -> int {
    (id as int / pow(16, (31 - k) as nat)) % 16
}

/// The text of an identifier.
pub open spec fn id_text(id: u128) -> Seq<char> {
    Seq::new(
        36,
        |i: int|
            if is_hyphen_place(i) {
                '-'
            } else {
                hex_digits()[digit_value(id, digit_index(i))]
            },
    )
}

/// What `uuid::Uuid::parse_str` makes of a text: the identifier it stands
/// for, or `None` where the parser rejects it. The parser takes more forms
/// than the one `id_text` writes.
pub uninterp spec fn parsed_id(text: Seq<char>) -> Option<u128>;

/// `uuid::Uuid::to_string`, on the identifier built by `Uuid::from_u128`.
/// Trusted: the text is the hyphenated lowercase form, and the crate's parser
/// reads it back as the same identifier.
#[verifier::external_body]
pub(crate) fn format_id(id: u128) -> (text: String)
    ensures
        text@ == id_text(id),
        parsed_id(text@) == Some(id),
{
    uuid::Uuid::from_u128(id).to_string()
}

/// `uuid::Uuid::parse_str`. Trusted: the result is a function of the text
/// alone.
#[verifier::external_body]
pub(crate) fn parse_id(text: &str) -> (id: Option<u128>)
    ensures
        id == parsed_id(text@),
{
    uuid::Uuid::parse_str(text).ok().map(|u| u.as_u128())
}

/// `uuid::Uuid::new_v4`: a fresh random identifier. Nothing is claimed of it.
#[verifier::external_body]
pub(crate) fn random_id() -> u128 {
    uuid::Uuid::new_v4().as_u128()
}

/// Writes an identifier as text.
pub fn id_to_string(id: u128) -> (text: String)
    ensures
        text@ == id_text(id),
        parsed_id(text@) == Some(id),
{
    format_id(id)
}

/// Reads an identifier from text.
pub fn id_from_str(text: &str) -> (id: Option<u128>)
    ensures
        id == parsed_id(text@),
{
    parse_id(text)
}

} // verus!
