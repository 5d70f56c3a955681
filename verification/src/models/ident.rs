//! Session identifiers: 128-bit values, written as hyphenated UUIDs.

use crate::text::digit_char;
use uuid::Uuid;
use vstd::arithmetic::power::pow;
use vstd::prelude::*;

verus! {

/// The character that writes the hexadecimal digit `d` in lower case.
pub open spec fn hex_char(d: int) -> char {
    if 0 <= d < 10 {
        digit_char(d as nat)
    } else if d == 10 {
        'a'
    } else if d == 11 {
        'b'
    } else if d == 12 {
        'c'
    } else if d == 13 {
        'd'
    } else if d == 14 {
        'e'
    } else {
        'f'
    }
}

/// The character at place `i` of the hyphenated form of `id`: hyphens at
/// places 8, 13, 18 and 23, and elsewhere the 32 hexadecimal digits of `id`,
/// the most significant first.
pub open spec fn uuid_char(id: u128, i: int) -> char {
    if i == 8 || i == 13 || i == 18 || i == 23 {
        '-'
    } else {
        let k = if i < 8 {
            i
        } else if i < 13 {
            i - 1
        } else if i < 18 {
            i - 2
        } else if i < 23 {
            i - 3
        } else {
            i - 4
        };
        hex_char(((id as int) / pow(16, (31 - k) as nat)) % 16)
    }
}

/// The hyphenated lower-case form of `id`, 36 characters long, such as
/// `67e55044-10b1-426f-9247-bb680e5fe0c8`.
pub open spec fn uuid_text(id: u128) -> Seq<char> {
    Seq::new(36, |i: int| uuid_char(id, i))
}

/// An identifier marked as drawn at random: its version digit is 4 and its
/// two variant bits are `10`.
pub open spec fn is_random_id(id: u128) -> bool {
    (id as int / 0x1_0000_0000_0000_0000_000) % 16 == 4 && (id as int / 0x4000_0000_0000_0000) % 4
        == 2
}

/// `uuid::Uuid::new_v4` draws a random identifier, which differs from call to
/// call; of the value only the version and variant marks are promised.
#[verifier::external_body]
pub(crate) fn random_id() -> (id: u128)
    ensures
        is_random_id(id),
{
    Uuid::new_v4().as_u128()
}

/// `uuid::Uuid::from_u128` followed by the identifier's `to_string`, which
/// writes the 16 bytes, most significant first, as lower-case hexadecimal
/// digits in groups of 8, 4, 4, 4 and 12 with hyphens between the groups.
#[verifier::external_body]
pub(crate) fn id_to_string(id: u128) -> (text: String)
    ensures
        text@ == uuid_text(id),
{
    Uuid::from_u128(id).to_string()
}

} // verus!
