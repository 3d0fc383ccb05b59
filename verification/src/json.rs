//! What the library needs of JSON: the members of an answer that it reads
//! itself, and the body of the identity call. Parsing and printing are
//! `serde_json`'s; the functions here hand texts in and plain values out.

use crate::text::option_text;
use vstd::prelude::*;

verus! {

/// What the JSON object that `text` spells holds under `key`: first the
/// integer, if it holds an integer there that fits in 64 bits, then the
/// string, if it holds a string there. Both are `None` where `text` is no
/// JSON, spells no object, or the object holds neither under that key.
pub uninterp spec fn json_member(text: Seq<char>, key: Seq<char>) -> (
    Option<i64>,
    Option<Seq<char>>,
);

/// The JSON text of the object made by putting the string `first_value`
/// under `first_key` and then the string `second_value` under `second_key`.
pub uninterp spec fn json_object_text(
    first_key: Seq<char>,
    first_value: Seq<char>,
    second_key: Seq<char>,
    second_value: Seq<char>,
) -> Seq<char>;

/// `serde_json::from_str` to a `serde_json::Value`, then `Value::get` with
/// the key, and `Value::as_i64` and `Value::as_str` on what is found. Every
/// failure on the way gives `None`.
#[verifier::external_body]
fn member(text: &str, key: &str) -> (found: (Option<i64>, Option<String>))
    ensures
        (found.0, option_text(found.1)) == json_member(text@, key@),
{
    match serde_json::from_str::<serde_json::Value>(text) {
        Ok(value) => match value.get(key) {
            Some(found) => (found.as_i64(), found.as_str().map(|s| s.to_string())),
            None => (None, None),
        },
        Err(_) => (None, None),
    }
}

/// The integer that the JSON object spelled by `text` holds under `key`.
pub open spec fn json_integer_member(text: Seq<char>, key: Seq<char>) -> Option<i64> {
    json_member(text, key).0
}

/// The string that the JSON object spelled by `text` holds under `key`.
pub open spec fn json_text_member(text: Seq<char>, key: Seq<char>) -> Option<Seq<char>> {
    json_member(text, key).1
}

/// Reads the integer under `key` out of a JSON text.
pub fn integer_member(text: &str, key: &str) -> (found: Option<i64>)
    ensures
        found == json_integer_member(text@, key@),
{
    member(text, key).0
}

/// Reads the string under `key` out of a JSON text.
pub fn text_member(text: &str, key: &str) -> (found: Option<String>)
    ensures
        option_text(found) == json_text_member(text@, key@),
{
    member(text, key).1
}

/// `serde_json::Map::insert`, twice on a new map, each time with a
/// `Value::String`, and `to_string` of the `Value::Object` that holds the
/// map: the compact JSON text of an object of two string members.
#[verifier::external_body]
pub(crate) fn object_text(
    first_key: &str,
    first_value: &str,
    second_key: &str,
    second_value: &str,
) -> (text: String)
    ensures
        text@ == json_object_text(first_key@, first_value@, second_key@, second_value@),
{
    let mut members = serde_json::Map::new();
    members.insert(first_key.to_string(), serde_json::Value::String(first_value.to_string()));
    members.insert(second_key.to_string(), serde_json::Value::String(second_value.to_string()));
    serde_json::Value::Object(members).to_string()
}

} // verus!
