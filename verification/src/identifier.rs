//! Object identifiers: random UUIDs, held as 128-bit numbers.

use crate::hexadecimal::{hex_text, hex_value, is_hex_digit, law_hex_round_trip};
use std::str::FromStr;
use vstd::arithmetic::power::pow;
use vstd::prelude::*;

verus! {

/// The `count` low-order bytes of `number`, the most significant one first.
pub open spec fn big_endian(number: nat, count: nat) -> Seq<u8>
    decreases count,
{
    if count == 0 {
        Seq::empty()
    } else {
        big_endian(number / 256, (count - 1) as nat).push((number % 256) as u8)
    }
}

/// The number whose bytes, the most significant one first, are `bytes`.
pub open spec fn big_endian_value(bytes: Seq<u8>) -> nat
    decreases bytes.len(),
{
    if bytes.len() == 0 {
        0
    } else {
        256 * big_endian_value(bytes.drop_last()) + bytes.last() as nat
    }
}

/// The hyphenated text of an identifier: its 32 lower-case hexadecimal digits in groups of
/// 8, 4, 4, 4 and 12.
pub open spec fn uuid_text(id: u128) -> Seq<char> {
    let digits = hex_text(big_endian(id as nat, 16));
    digits.subrange(0, 8) + seq!['-'] + digits.subrange(8, 12) + seq!['-'] + digits.subrange(12, 16)
        + seq!['-'] + digits.subrange(16, 20) + seq!['-'] + digits.subrange(20, 32)
}

/// The digits of a text in five groups of 8, 4, 4, 4 and 12 characters with hyphens between.
pub open spec fn without_hyphens(text: Seq<char>) -> Option<Seq<char>> {
    if text.len() == 36 && text[8] == '-' && text[13] == '-' && text[18] == '-' && text[23] == '-' {
        Some(
            text.subrange(0, 8) + text.subrange(9, 13) + text.subrange(14, 18) + text.subrange(19, 23)
                + text.subrange(24, 36),
        )
    } else {
        None
    }
}

/// Whether `text` starts with `urn:uuid:`, in letters of either case.
pub open spec fn has_urn_prefix(text: Seq<char>) -> bool {
    &&& text.len() >= 9
    &&& text[0] == 'u' || text[0] == 'U'
    &&& text[1] == 'r' || text[1] == 'R'
    &&& text[2] == 'n' || text[2] == 'N'
    &&& text[3] == ':'
    &&& text[4] == 'u' || text[4] == 'U'
    &&& text[5] == 'u' || text[5] == 'U'
    &&& text[6] == 'i' || text[6] == 'I'
    &&& text[7] == 'd' || text[7] == 'D'
    &&& text[8] == ':'
}

/// The 32 digits of an identifier's text, which stand by themselves, or hyphenated, or
/// hyphenated in braces, or hyphenated after `urn:uuid:`.
pub open spec fn uuid_digits(text: Seq<char>) -> Option<Seq<char>> {
    if text.len() == 32 {
        Some(text)
    } else if text.len() == 36 {
        without_hyphens(text)
    } else if text.len() == 38 && text[0] == '{' && text[37] == '}' {
        without_hyphens(text.subrange(1, 37))
    } else if text.len() == 45 && has_urn_prefix(text) {
        without_hyphens(text.subrange(9, 45))
    } else {
        None
    }
}

/// The identifier that `text` spells, if it is a UUID's text.
pub open spec fn uuid_value(text: Seq<char>) -> Option<u128> {
    match uuid_digits(text) {
        Some(digits) => match hex_value(digits) {
            Some(bytes) => Some(big_endian_value(bytes) as u128),
            None => None,
        },
        None => None,
    }
}

/// Whether `id` has the version and the variant bits of a random UUID.
pub open spec fn is_random_uuid(id: u128) -> bool {
    &&& (id / 0x1000_0000_0000_0000_0000) % 16 == 4
    &&& (id / 0x4000_0000_0000_0000) % 4 == 2
}

/// The identifiers that are counted up where chance finds none, each with the bits of a random
/// UUID.
pub open spec fn counted_uuid(index: u64) -> u128 {
    (0x4000_8000_0000_0000_0000 + (index / 0x4000_0000_0000_0000) * 0x1_0000_0000_0000_0000 + index
        % 0x4000_0000_0000_0000) as u128
}

/// Counted identifiers have the bits of a random UUID, and no two of them are the same.
pub proof fn law_counted_uuids(index: u64, other: u64)
    ensures
        is_random_uuid(counted_uuid(index)),
        counted_uuid(index) == counted_uuid(other) ==> index == other,
{
    let high = index / 0x4000_0000_0000_0000;
    let low = index % 0x4000_0000_0000_0000;
    let id = counted_uuid(index);
    assert(high < 4);
    assert(id == 4 * 0x1000_0000_0000_0000_0000 + high * 0x1_0000_0000_0000_0000
        + 2 * 0x4000_0000_0000_0000 + low);
    assert(id / 0x1000_0000_0000_0000_0000 == 4);
    assert(id / 0x4000_0000_0000_0000 == 4 * 0x4000 + high * 4 + 2);
}

/// `count` bytes have `count` elements, and give back a number that fits in them.
proof fn lemma_big_endian_round_trip(number: nat, count: nat)
    requires
        number < pow(256, count),
    ensures
        big_endian(number, count).len() == count,
        big_endian_value(big_endian(number, count)) == number,
    decreases count,
{
    reveal(pow);
    if count > 0 {
        let rest = (count - 1) as nat;
        assert(number / 256 < pow(256, rest)) by {
            assert(pow(256, count) == 256 * pow(256, rest));
        }
        lemma_big_endian_round_trip(number / 256, rest);
        let bytes = big_endian(number, count);
        assert(bytes.drop_last() =~= big_endian(number / 256, rest));
    }
}

/// The 16 bytes of an identifier give it back.
proof fn lemma_uuid_bytes(id: u128)
    ensures
        big_endian(id as nat, 16).len() == 16,
        big_endian_value(big_endian(id as nat, 16)) == id,
{
    assert(pow(256, 16) == 0x1_0000_0000_0000_0000_0000_0000_0000_0000) by {
        reveal_with_fuel(pow, 17);
    }
    lemma_big_endian_round_trip(id as nat, 16);
}

/// Reading the text of an identifier gives the identifier back.
pub proof fn law_uuid_round_trip(id: u128)
    ensures
        uuid_value(uuid_text(id)) == Some(id),
{
    let bytes = big_endian(id as nat, 16);
    lemma_uuid_bytes(id);
    assert(without_hyphens(uuid_text(id))->0 =~= hex_text(bytes));
    law_hex_round_trip(bytes);
}

/// The text of an identifier is made of hexadecimal digits, with a hyphen at four places.
pub proof fn law_uuid_text_form(id: u128)
    ensures
        uuid_text(id).len() == 36,
        forall|i: int|
            0 <= i < 36 ==> if i == 8 || i == 13 || i == 18 || i == 23 {
                #[trigger] uuid_text(id)[i] == '-'
            } else {
                is_hex_digit(uuid_text(id)[i])
            },
{
    let digits = hex_text(big_endian(id as nat, 16));
    lemma_uuid_bytes(id);
    law_hex_round_trip(big_endian(id as nat, 16));
    assert(forall|i: int| 0 <= i < digits.len() ==> is_hex_digit(#[trigger] digits[i]));
}

/// The identifier of number `index` among those that are counted up.
pub fn count_uuid(index: u64) -> (id: u128)
    ensures
        id == counted_uuid(index),
{
    let high: u128 = (index / 0x4000_0000_0000_0000) as u128;
    let low: u128 = (index % 0x4000_0000_0000_0000) as u128;
    0x4000_8000_0000_0000_0000 + high * 0x1_0000_0000_0000_0000 + low
}

/// The error of `Uuid::from_str`.
#[verifier::external_type_specification]
#[verifier::external_body]
pub struct ExUuidError(uuid::Error);

/// Calls `uuid::Uuid::new_v4`: a random UUID.
#[verifier::external_body]
pub(crate) fn random_uuid() -> (id: u128)
    ensures
        is_random_uuid(id),
{
    uuid::Uuid::new_v4().as_u128()
}

/// Calls `to_string` of `uuid::Uuid`: the hyphenated text of `id`.
#[verifier::external_body]
pub(crate) fn format_uuid(id: u128) -> (text: String)
    ensures
        text@ == uuid_text(id),
{
    uuid::Uuid::from_u128(id).to_string()
}

/// Calls `from_str` of `uuid::Uuid`: the identifier that `text` spells, or an error where the
/// text is of none of the forms that the crate reads.
#[verifier::external_body]
pub(crate) fn parse_uuid(text: &str) -> (id: Result<u128, uuid::Error>)
    ensures
        match id {
            Ok(id) => uuid_value(text@) == Some(id),
            Err(_) => uuid_value(text@) is None,
        },
{
    uuid::Uuid::from_str(text).map(|id| id.as_u128())
}

/// Whether `id` was drawn: it is an identifier that `random_uuid` returned.
pub closed spec fn is_drawn_uuid(id: u128) -> bool {
    call_ensures(random_uuid, (), id)
}

/// A drawn identifier is what `random_uuid` returns, and nothing else is.
pub(crate) proof fn law_drawn_uuids(id: u128)
    ensures
        is_drawn_uuid(id) <==> call_ensures(random_uuid, (), id),
{
}

} // verus!
