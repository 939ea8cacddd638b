//! Account identifiers: 128-bit numbers, written as UUIDs.

use vstd::prelude::*;
use crate::decimal::digit_char;
use crate::random::bytes_view;

verus! {

/// The 128-bit number that a text stands for as a UUID, in any of the forms
/// that the `uuid` crate reads; `None` where it reads none.
pub uninterp spec fn parsed_uuid(text: Seq<char>) -> Option<u128>;

/// The character of a hexadecimal digit, in lower case.
pub open spec fn hex_char(d: nat) -> char {
    if d < 10 {
        digit_char(d)
    } else if d == 10 {
        'a'
    } else if d == 11 {
        'b'
    } else if d == 12 {
        'c'
    } else if d == 13 {
        'd'
    } else if d == 14 {
        'e'
    } else {
        'f'
    }
}

pub open spec fn sixteen_to(n: nat) -> nat
    decreases n,
{
    if n == 0 {
        1
    } else {
        16 * sixteen_to((n - 1) as nat)
    }
}

/// The `k`-th of the thirty-two hexadecimal digits of `id`, the most
/// significant first.
pub open spec fn hex_digit(id: u128, k: int) -> nat {
    ((id as nat) / sixteen_to((31 - k) as nat)) % 16
}

/// The hyphens that stand before position `i` of a hyphenated UUID.
pub open spec fn hyphens_before(i: int) -> int {
    if i > 23 {
        4
    } else if i > 18 {
        3
    } else if i > 13 {
        2
    } else if i > 8 {
        1
    } else {
        0
    }
}

/// The hyphenated form of a UUID: its hexadecimal digits in lower case, in
/// groups of 8, 4, 4, 4 and 12.
pub open spec fn hyphenated(id: u128) -> Seq<char> {
    Seq::new(
        36,
        |i: int|
            if i == 8 || i == 13 || i == 18 || i == 23 {
                '-'
            } else {
                hex_char(hex_digit(id, i - hyphens_before(i)))
            },
    )
}

/// The number that bytes stand for, the first of them the most
/// significant.
pub open spec fn big_endian(bytes: Seq<u8>) -> nat
    decreases bytes.len(),
{
    if bytes.len() == 0 {
        0
    } else {
        256 * big_endian(bytes.drop_last()) + bytes.last() as nat
    }
}

/// A 128-bit number with the marks of a random UUID set: the version 4 in
/// the upper half of the seventh byte, the variant in the two top bits of
/// the ninth.
pub open spec fn version_four(value: u128) -> u128 {
    (value & 0xFFFF_FFFF_FFFF_4FFF_BFFF_FFFF_FFFF_FFFF) | 0x4000_8000_0000_0000_0000
}

/// The id that is made of random bytes: a random UUID, where there are
/// sixteen of them.
pub open spec fn id_of(bytes: Option<Seq<u8>>) -> Option<u128> {
    match bytes {
        Some(b) => if b.len() == 16 {
            Some(version_four(big_endian(b) as u128))
        } else {
            None
        },
        None => None,
    }
}

/// Calls `uuid::Builder::from_random_bytes`, which takes sixteen bytes as
/// they are and sets version and variant, and takes the number of the UUID
/// built, its first byte the most significant.
#[verifier::external_body]
fn uuid_of_random(bytes: &[u8]) -> (id: u128)
    requires
        bytes@.len() == 16,
    ensures
        id == version_four(big_endian(bytes@) as u128),
{
    let mut random = [0u8; 16];
    random.copy_from_slice(bytes);
    uuid::Builder::from_random_bytes(random).into_uuid().as_u128()
}

/// Makes an id of random bytes: there is one exactly where there are
/// sixteen bytes.
pub fn id_from(bytes: Option<Vec<u8>>) -> (id: Option<u128>)
    ensures
        id == id_of(bytes_view(bytes)),
{
    match bytes {
        Some(bytes) => if bytes.len() == 16 {
            Some(uuid_of_random(bytes.as_slice()))
        } else {
            None
        },
        None => None,
    }
}

/// Calls `uuid::Uuid::try_parse` and takes the number of the UUID read.
#[verifier::external_body]
pub(crate) fn parse_uuid(text: &str) -> (id: Option<u128>)
    ensures
        id == parsed_uuid(text@),
{
    uuid::Uuid::try_parse(text).ok().map(|uuid| uuid.as_u128())
}

/// Formats the UUID with the number `id` by its `Display`, which writes the
/// hyphenated form in lower case.
#[verifier::external_body]
pub(crate) fn uuid_text(id: u128) -> (text: String)
    ensures
        text@ == hyphenated(id),
{
    uuid::Uuid::from_u128(id).to_string()
}

/// A hyphenated UUID is made of ASCII characters.
pub proof fn hyphenated_is_ascii(id: u128)
    ensures
        hyphenated(id).len() == 36,
        vstd::utf8::is_ascii_chars(hyphenated(id)),
{
}

} // verus!
