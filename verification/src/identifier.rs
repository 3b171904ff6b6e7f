//! User identifiers and their text form.
//!
//! A user is known by a 128-bit identifier. Inside a token it travels as
//! text, written and read back by the `uuid` crate.

use vstd::prelude::*;

verus! {

/// Length of an identifier's text: 32 hexadecimal digits and 4 hyphens.
pub const UUID_TEXT_LEN: usize = 36;

/// The lower-case hexadecimal digit for a value below 16.
pub open spec fn hex_digit(value: int) -> char {
    seq!['0', '1', '2', '3', '4', '5', '6', '7', '8', '9', 'a', 'b', 'c', 'd', 'e', 'f'][value]
}

/// The `index`-th of the 32 hexadecimal digits of `id`, the most significant
/// being the first.
pub open spec fn hex_nibble(id: u128, index: int) -> int {
    ((id >> (((31 - index) * 4) as u128)) & 0xf) as int
}

/// Whether a hyphen stands at position `at` of an identifier's text.
pub open spec fn is_hyphen_position(at: int) -> bool {
    at == 8 || at == 13 || at == 18 || at == 23
}

/// How many hyphens stand before position `at` of an identifier's text.
pub open spec fn hyphens_before(at: int) -> int {
    if at < 8 {
        0
    } else if at < 13 {
        1
    } else if at < 18 {
        2
    } else if at < 23 {
        3
    } else {
        4
    }
}

/// The text of an identifier: its 32 lower-case hexadecimal digits in the
/// groups 8-4-4-4-12, with a hyphen between two groups.
pub open spec fn uuid_text(id: u128) -> Seq<char> {
    Seq::new(
        UUID_TEXT_LEN as nat,
        |at: int|
            if is_hyphen_position(at) {
                '-'
            } else {
                hex_digit(hex_nibble(id, at - hyphens_before(at)))
            },
    )
}

/// The identifier that `uuid::Uuid::parse_str` reads from `text`, or `None`
/// where it refuses the text.
pub uninterp spec fn uuid_parsed(text: Seq<char>) -> Option<u128>;

/// Writes an identifier as text with `Uuid::to_string`. Trusted: the result
/// is the hyphenated lower-case form, and `Uuid::parse_str` reads that text
/// back as `id` (the crate documents that its parser accepts every format
/// that it writes).
#[verifier::external_body]
pub(crate) fn format_uuid(id: u128) -> (text: String)
    ensures
        text@ == uuid_text(id),
        uuid_parsed(text@) == Some(id),
{
    uuid::Uuid::from_u128(id).to_string()
}

/// Reads an identifier with `Uuid::parse_str`. Trusted: the result is what
/// the crate's parser gives for this text, `None` standing for its error.
#[verifier::external_body]
pub(crate) fn parse_uuid(text: &str) -> (id: Option<u128>)
    ensures
        id == uuid_parsed(text@),
{
    match uuid::Uuid::parse_str(text) {
        Ok(parsed) => Some(parsed.as_u128()),
        Err(_) => None,
    }
}

} // verus!
