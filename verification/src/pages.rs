//! The pages that a server shows besides its objects.

use crate::config::Config;
use crate::hexadecimal::hex_digit;
use crate::reply::{ok_reply, text_reply, Reply, OK};
use vstd::prelude::*;
use vstd::utf8::encode_utf8;

verus! {

/// The decimal digits of `number`, without leading zeros.
pub open spec fn decimal(number: nat) -> Seq<char>
    decreases number,
{
    if number < 10 {
        seq![hex_digit(number as int)]
    } else {
        decimal(number / 10).push(hex_digit(number as int % 10))
    }
}

/// The number that a text of decimal digits spells.
pub open spec fn decimal_value(text: Seq<char>) -> int
    decreases text.len(),
{
    if text.len() == 0 {
        0
    } else {
        10 * decimal_value(text.drop_last()) + (text.last() as int - '0' as int)
    }
}

/// Whether `text` is made of decimal digits, without leading zeros.
pub open spec fn is_numeral(text: Seq<char>) -> bool {
    &&& text.len() > 0
    &&& text[0] == '0' ==> text.len() == 1
    &&& forall|i: int| 0 <= i < text.len() ==> '0' <= #[trigger] text[i] <= '9'
}

/// The decimal digits of a number are a numeral that spells it.
pub proof fn law_decimal(number: nat)
    ensures
        is_numeral(decimal(number)),
        decimal_value(decimal(number)) == number,
        decimal(number)[0] == '0' ==> number == 0,
    decreases number,
{
    let text = decimal(number);
    if number < 10 {
        assert(text.drop_last() =~= Seq::<char>::empty());
        assert(decimal_value(text.drop_last()) == 0);
    } else {
        law_decimal(number / 10);
        assert(text.drop_last() =~= decimal(number / 10));
    }
}

/// Whether JSON holds `name` as it is: printable ASCII characters, none of which is a
/// quotation mark or a backslash.
pub open spec fn is_plain_name(name: Seq<char>) -> bool {
    forall|i: int|
        0 <= i < name.len() ==> ' ' <= #[trigger] name[i] <= '~' && name[i] != '"' && name[i] != '\\'
}

/// Whether `first` stands before `second` in the alphabet, by a character that both have.
pub open spec fn stands_before(first: Seq<char>, second: Seq<char>) -> bool {
    exists|i: int|
        #![trigger first[i]]
        0 <= i < first.len() && i < second.len() && first[i] < second[i] && first.subrange(0, i)
            == second.subrange(0, i)
}

/// The compact JSON text of an object with two members, both of them numbers.
pub open spec fn json_object(
    first: Seq<char>,
    first_number: u64,
    second: Seq<char>,
    second_number: u64,
) -> Seq<char> {
    seq!['{', '"'] + first + seq!['"', ':'] + decimal(first_number as nat) + seq![',', '"'] + second
        + seq!['"', ':'] + decimal(second_number as nat) + seq!['}']
}

/// Builds a `serde_json::Value` of two members and calls its `to_string`: the compact JSON
/// text, with the members in alphabetical order.
#[verifier::external_body]
fn json_text(first: &str, first_number: u64, second: &str, second_number: u64) -> (text: String)
    requires
        is_plain_name(first@),
        is_plain_name(second@),
        stands_before(first@, second@),
    ensures
        text@ == json_object(first@, first_number, second@, second_number),
{
    let mut members = serde_json::Map::new();
    members.insert(first.to_string(), serde_json::Value::from(first_number));
    members.insert(second.to_string(), serde_json::Value::from(second_number));
    serde_json::Value::Object(members).to_string()
}

/// `GET /`: serves the upload UI, which is `page`.
pub fn index(page: &str) -> (reply: Reply)
    ensures
        reply@ == ok_reply("text/html; charset=utf-8"@, encode_utf8(page@)),
{
    Reply::ok("text/html; charset=utf-8".to_string(), page.as_bytes_vec())
}

/// `GET /info`: returns relevant server limits as JSON.
pub fn info(config: &Config) -> (reply: Reply)
    ensures
        reply@ == ok_reply(
            "application/json"@,
            encode_utf8(
                json_object(
                    "max_age_secs"@,
                    config.max_age_secs,
                    "max_object_size"@,
                    config.max_object_size,
                ),
            ),
        ),
{
    proof {
        reveal_strlit("max_age_secs");
        reveal_strlit("max_object_size");
        let first = "max_age_secs"@;
        let second = "max_object_size"@;
        assert(first[4] < second[4]);
        assert(first.subrange(0, 4) =~= second.subrange(0, 4));
    }
    let body = json_text("max_age_secs", config.max_age_secs, "max_object_size", config.max_object_size);
    Reply::ok("application/json".to_string(), body.as_str().as_bytes_vec())
}

/// `GET /metrics`: shows the counters, which are `rendered`.
pub fn render_metrics(rendered: &str) -> (reply: Reply)
    ensures
        reply@ == text_reply(OK, rendered@),
{
    Reply::text(OK, rendered)
}

} // verus!
