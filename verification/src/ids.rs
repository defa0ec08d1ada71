//! Identifiers: digests of file paths and freshly drawn random identifiers.

use vstd::prelude::*;

verus! {

/// The MD5 digest of the UTF-8 bytes of `text`, written as lower-case
/// hexadecimal digits.
pub uninterp spec fn md5_hex(text: Seq<char>) -> Seq<char>;

/// `md5::compute` on the bytes of `text`, rendered with the digest's
/// `LowerHex` formatting: the digest depends on the bytes alone.
#[verifier::external_body]
pub(crate) fn md5_hex_of(text: &str) -> (hex: String)
    ensures
        hex@ == md5_hex(text@),
{
    format!("{:x}", md5::compute(text))
}

/// Whether `c` may stand at place `i` of a random identifier's text: a
/// hyphen after the eighth digit and after each of the next three groups of
/// four, the version digit `4` as the first of the third group, one of `8`,
/// `9`, `a`, `b` as the first of the fourth, and a hexadecimal digit in lower
/// case everywhere else.
pub open spec fn fits_identifier_place(i: int, c: char) -> bool {
    let u = c as u32;
    if i == 8 || i == 13 || i == 18 || i == 23 {
        c == '-'
    } else if i == 14 {
        c == '4'
    } else if i == 19 {
        c == '8' || c == '9' || c == 'a' || c == 'b'
    } else {
        0x30 <= u <= 0x39 || 0x61 <= u <= 0x66
    }
}

/// Whether `text` has the shape of a random identifier: 36 characters,
/// each of them fit for its place.
pub open spec fn is_random_identifier(text: Seq<char>) -> bool {
    &&& text.len() == 36
    &&& forall|i: int| 0 <= i < 36 ==> fits_identifier_place(i, #[trigger] text[i])
}

/// `uuid::Uuid::new_v4`, rendered as text: which identifier is drawn is
/// left open; every one is a version 4 identifier, which `to_string` writes
/// in lower case with hyphens.
#[verifier::external_body]
pub(crate) fn random_identifier() -> (id: String)
    ensures
        is_random_identifier(id@),
{
    uuid::Uuid::new_v4().to_string()
}

} // verus!
