//! The JSON codec that turns typed values into payload bytes and back.
//!
//! The orchestration logic treats payloads as opaque bytes. Encoding and
//! decoding are done by `serde_json`; this module states what is relied on.

use vstd::prelude::*;

verus! {

/// `serde_json::Error`, carried through as an opaque value.
#[verifier::external_type_specification]
#[verifier::external_body]
pub struct ExJsonError(near_sdk::serde_json::Error);

/// The text that `serde_json::from_slice::<String>` reads from `bytes`, or
/// `None` where it reports an error.
pub uninterp spec fn json_text(bytes: Seq<u8>) -> Option<Seq<char>>;

/// The bytes that `serde_json` prints for the object whose only member is
/// `key`, with the string `text` as its value.
pub uninterp spec fn json_text_member(key: Seq<char>, text: Seq<char>) -> Seq<u8>;

/// The bytes that `serde_json` prints for the object with the member
/// `text_key`, whose value is the string `text`, and the member `number_key`,
/// whose value is `number`.
pub uninterp spec fn json_text_and_number_members(
    text_key: Seq<char>,
    text: Seq<char>,
    number_key: Seq<char>,
    number: u64,
) -> Seq<u8>;

/// Calls `serde_json::from_slice::<String>` on `bytes`.
///
/// Trusted: the outcome is a function of the bytes alone, named by
/// [`json_text`]. Nothing is claimed about which bytes decode.
#[verifier::external_body]
fn parse_json_text(bytes: &[u8]) -> (parsed: Result<String, near_sdk::serde_json::Error>)
    ensures
        parsed matches Ok(text) ==> json_text(bytes@) == Some(text@),
        parsed is Err ==> json_text(bytes@) is None,
{
    near_sdk::serde_json::from_slice::<String>(bytes)
}

/// Builds the `serde_json` object `{ key: text }` and prints it with
/// `Value::to_string`.
///
/// Trusted: the bytes are a function of `key` and `text` alone, named by
/// [`json_text_member`].
#[verifier::external_body]
pub(crate) fn encode_text_member(key: &str, text: &str) -> (bytes: Vec<u8>)
    ensures
        bytes@ == json_text_member(key@, text@),
{
    let mut object = near_sdk::serde_json::Map::new();
    object.insert(key.to_owned(), near_sdk::serde_json::Value::from(text));
    near_sdk::serde_json::Value::Object(object).to_string().into_bytes()
}

/// Builds the `serde_json` object `{ text_key: text, number_key: number }` and
/// prints it with `Value::to_string`.
///
/// Trusted: the bytes are a function of the four arguments alone, named by
/// [`json_text_and_number_members`].
#[verifier::external_body]
pub(crate) fn encode_text_and_number_members(
    text_key: &str,
    text: &str,
    number_key: &str,
    number: u64,
) -> (bytes: Vec<u8>)
    ensures
        bytes@ == json_text_and_number_members(text_key@, text@, number_key@, number),
{
    let mut object = near_sdk::serde_json::Map::new();
    object.insert(text_key.to_owned(), near_sdk::serde_json::Value::from(text));
    object.insert(number_key.to_owned(), near_sdk::serde_json::Value::from(number));
    near_sdk::serde_json::Value::Object(object).to_string().into_bytes()
}

/// What a decoding attempt produced, as plain text.
pub open spec fn text_view(decoded: Option<String>) -> Option<Seq<char>> {
    match decoded {
        Some(text) => Some(text@),
        None => None,
    }
}

/// Decodes a payload that is expected to hold one JSON string.
pub fn decode_text(payload: &[u8]) -> (decoded: Option<String>)
    ensures
        text_view(decoded) == json_text(payload@),
{
    match parse_json_text(payload) {
        Ok(text) => Some(text),
        Err(_) => None,
    }
}

/// Decoding is idempotent: the decoder keeps no state, so whatever two runs
/// of [`decode_text`] make of the same payload is the same text, or the same
/// failure.
pub proof fn lemma_decode_is_idempotent(
    payload: Seq<u8>,
    first: Option<String>,
    second: Option<String>,
)
    requires
        text_view(first) == json_text(payload),
        text_view(second) == json_text(payload),
    ensures
        text_view(first) == text_view(second),
{
}

} // verus!
