//! Work identifiers: UUIDs, held as 128-bit integers.

use vstd::prelude::*;
use crate::text::digit;

verus! {

/// What `uuid::Uuid::parse_str` reads from a text: the UUID, or `None` where
/// the text is in none of the accepted layouts.
pub uninterp spec fn uuid_parse_of(s: Seq<char>) -> Option<u128>;

/// The lowercase hexadecimal digit for `d < 16`.
pub open spec fn hex_digit(d: nat) -> char {
    if d < 10 {
        digit(d)
    } else if d == 10 {
        'a'
    } else if d == 11 {
        'b'
    } else if d == 12 {
        'c'
    } else if d == 13 {
        'd'
    } else if d == 14 {
        'e'
    } else {
        'f'
    }
}

/// The 32 hexadecimal digits of `id`, most significant first.
pub open spec fn hex32(id: u128) -> Seq<char> {
    Seq::new(32, |k: int| hex_digit(((id >> ((124 - 4 * k) as u128)) & 15u128) as nat))
}

/// The hyphenated lowercase form of a UUID: its digits in groups of 8, 4, 4,
/// 4 and 12, joined by `-`.
pub open spec fn uuid_text_of(id: u128) -> Seq<char> {
    let h = hex32(id);
    h.subrange(0, 8) + seq!['-'] + h.subrange(8, 12) + seq!['-'] + h.subrange(12, 16) + seq!['-']
        + h.subrange(16, 20) + seq!['-'] + h.subrange(20, 32)
}

/// Relies on `uuid::Uuid::parse_str` (with `Uuid::as_u128`): reads a UUID in
/// the simple (32 characters), hyphenated (36), braced (38) or URN (45)
/// layout, so a text of any other length reads as nothing.
#[verifier::external_body]
pub(crate) fn parse_uuid(s: &str) -> (r: Option<u128>)
    ensures
        r == uuid_parse_of(s@),
        !(s@.len() == 32 || s@.len() == 36 || s@.len() == 38 || s@.len() == 45) ==> r is None,
{
    match uuid::Uuid::parse_str(s) {
        Ok(u) => Some(u.as_u128()),
        Err(_) => None,
    }
}

/// Relies on `uuid::Uuid::from_u128` and its `Display`, which writes the
/// hyphenated lowercase form; `Uuid::parse_str` reads that form back.
#[verifier::external_body]
pub(crate) fn uuid_text(id: u128) -> (r: String)
    ensures
        r@ == uuid_text_of(id),
        uuid_parse_of(r@) == Some(id),
{
    uuid::Uuid::from_u128(id).to_string()
}

} // verus!
