//! Hexadecimal text: the form in which keys travel.

use vstd::prelude::*;

verus! {

/// The lower-case hexadecimal digit of `value`, for `value` from 0 to 15.
pub open spec fn hex_digit(value: int) -> char {
    seq!['0', '1', '2', '3', '4', '5', '6', '7', '8', '9', 'a', 'b', 'c', 'd', 'e', 'f'][value]
}

/// Whether `digit` is a hexadecimal digit, of either case.
pub open spec fn is_hex_digit(digit: char) -> bool {
    '0' <= digit <= '9' || 'a' <= digit <= 'f' || 'A' <= digit <= 'F'
}

/// The value of a hexadecimal digit of either case.
pub open spec fn hex_digit_value(digit: char) -> int {
    if '0' <= digit <= '9' {
        digit as int - '0' as int
    } else if 'a' <= digit <= 'f' {
        digit as int - 'a' as int + 10
    } else {
        digit as int - 'A' as int + 10
    }
}

/// The lower-case hexadecimal text of `bytes`: two digits for each byte, the high one first.
pub open spec fn hex_text(bytes: Seq<u8>) -> Seq<char> {
    Seq::new(
        2 * bytes.len(),
        |i: int|
            if i % 2 == 0 {
                hex_digit(bytes[i / 2] as int / 16)
            } else {
                hex_digit(bytes[i / 2] as int % 16)
            },
    )
}

/// The bytes that `text` spells in hexadecimal, if it is made of an even number of
/// hexadecimal digits.
pub open spec fn hex_value(text: Seq<char>) -> Option<Seq<u8>> {
    if text.len() % 2 == 0 && forall|i: int| 0 <= i < text.len() ==> is_hex_digit(#[trigger] text[i]) {
        Some(
            Seq::new(
                text.len() / 2,
                |i: int|
                    (16 * hex_digit_value(text[2 * i]) + hex_digit_value(text[2 * i + 1])) as u8,
            ),
        )
    } else {
        None
    }
}

/// A hexadecimal digit is one, and has the value that it was made from.
proof fn lemma_hex_digit(value: int)
    requires
        0 <= value < 16,
    ensures
        is_hex_digit(hex_digit(value)),
        hex_digit_value(hex_digit(value)) == value,
{
}

/// Reading the hexadecimal text of bytes gives the bytes back.
pub proof fn law_hex_round_trip(bytes: Seq<u8>)
    ensures
        hex_value(hex_text(bytes)) == Some(bytes),
{
    let text = hex_text(bytes);
    assert forall|i: int| 0 <= i < text.len() implies is_hex_digit(#[trigger] text[i]) by {
        lemma_hex_digit(bytes[i / 2] as int / 16);
        lemma_hex_digit(bytes[i / 2] as int % 16);
    }
    let read = hex_value(text)->0;
    assert forall|i: int| 0 <= i < bytes.len() implies #[trigger] read[i] == bytes[i] by {
        lemma_hex_digit(bytes[i] as int / 16);
        lemma_hex_digit(bytes[i] as int % 16);
        assert((2 * i) / 2 == i && (2 * i) % 2 == 0);
        assert((2 * i + 1) / 2 == i && (2 * i + 1) % 2 == 1);
    }
    assert(read =~= bytes);
}

/// The hexadecimal text of bytes is made of the digits `0` to `9` and `a` to `f`, two for each
/// byte: the first spells its upper half and the second its lower half.
pub proof fn law_hex_text_form(bytes: Seq<u8>, i: int)
    requires
        0 <= i < bytes.len(),
    ensures
        hex_text(bytes).len() == 2 * bytes.len(),
        '0' <= hex_text(bytes)[2 * i] <= '9' || 'a' <= hex_text(bytes)[2 * i] <= 'f',
        '0' <= hex_text(bytes)[2 * i + 1] <= '9' || 'a' <= hex_text(bytes)[2 * i + 1] <= 'f',
        hex_text(bytes)[2 * i] as int == bytes[i] / 16 + if bytes[i] / 16 < 10 {
            48int
        } else {
            87
        },
        hex_text(bytes)[2 * i + 1] as int == bytes[i] % 16 + if bytes[i] % 16 < 10 {
            48int
        } else {
            87
        },
{
    assert((2 * i) / 2 == i && (2 * i) % 2 == 0);
    assert((2 * i + 1) / 2 == i && (2 * i + 1) % 2 == 1);
    lemma_hex_digit(bytes[i] as int / 16);
    lemma_hex_digit(bytes[i] as int % 16);
}

/// What a text spells in hexadecimal does not depend on the case of its letters: two texts that
/// agree but for that spell the same bytes, or none.
pub proof fn law_hex_digits_of_either_case(text: Seq<char>, other: Seq<char>)
    requires
        text.len() == other.len(),
        forall|i: int|
            0 <= i < text.len() ==> #[trigger] text[i] == other[i] || ('a' <= text[i] <= 'f'
                && other[i] as int == text[i] as int - 32),
    ensures
        hex_value(text) is Some <==> hex_value(other) is Some,
        hex_value(text) is Some ==> hex_value(text) == hex_value(other),
{
    assert forall|i: int| 0 <= i < text.len() implies is_hex_digit(#[trigger] text[i])
        == is_hex_digit(other[i]) && (is_hex_digit(text[i]) ==> hex_digit_value(text[i])
        == hex_digit_value(other[i])) by {}
    if hex_value(other) is Some {
        assert forall|i: int| 0 <= i < text.len() implies is_hex_digit(#[trigger] text[i]) by {
            assert(is_hex_digit(other[i]));
        }
    }
    if hex_value(text) is Some {
        assert forall|i: int| 0 <= i < other.len() implies is_hex_digit(#[trigger] other[i]) by {
            assert(is_hex_digit(text[i]));
        }
        assert(hex_value(text)->0 =~= hex_value(other)->0);
    }
}

/// The error of `hex::decode`.
#[verifier::external_type_specification]
#[verifier::external_body]
pub struct ExFromHexError(hex::FromHexError);

/// Calls `hex::encode`: the lower-case hexadecimal text of `bytes`.
#[verifier::external_body]
pub(crate) fn encode_hex(bytes: &[u8]) -> (text: String)
    requires
        bytes@.len() <= isize::MAX / 2,
    ensures
        text@ == hex_text(bytes@),
{
    hex::encode(bytes)
}

/// Calls `hex::decode`: the bytes that `text` spells, or an error where the text is not an
/// even number of hexadecimal digits.
#[verifier::external_body]
pub(crate) fn decode_hex(text: &str) -> (bytes: Result<Vec<u8>, hex::FromHexError>)
    ensures
        match bytes {
            Ok(bytes) => hex_value(text@) == Some(bytes@),
            Err(_) => hex_value(text@) is None,
        },
{
    hex::decode(text)
}

} // verus!
