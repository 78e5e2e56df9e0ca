//! JSON values, as `serde_json` builds, prints and reads them.
//!
//! A value is known to the proofs by its compact text alone. The text
//! identifies the value, so what `serde_json` finds in a value is stated as
//! a function of that text.

use vstd::prelude::*;
use crate::text::decimal_text;

verus! {

#[verifier::external_type_specification]
#[verifier::external_body]
pub struct ExValue(serde_json::Value);

#[verifier::external_type_specification]
#[verifier::external_body]
pub struct ExJsonError(serde_json::Error);

/// The compact JSON text of a value: what `serde_json` prints for it, with
/// no white space between its parts.
pub uninterp spec fn json_text(value: serde_json::Value) -> Seq<char>;

/// The JSON text of the string `content`: quoted and escaped.
pub uninterp spec fn json_string_text(content: Seq<char>) -> Seq<char>;

/// The JSON text of the object built from `members`, each a key and the
/// text of its value. Of two members with one key the later one stays.
pub uninterp spec fn json_object_text(members: Seq<(Seq<char>, Seq<char>)>) -> Seq<char>;

/// The compact text of the value that `input` is read as; `None` where
/// `input` is not one JSON value.
pub uninterp spec fn json_parsed_text(input: Seq<u8>) -> Option<Seq<char>>;

/// The text of what indexing by `key` finds in the value with text
/// `value`: the member of that name where the value is an object that has
/// one, and `null` otherwise.
pub uninterp spec fn json_member_text(value: Seq<char>, key: Seq<char>) -> Seq<char>;

/// The content of the value with text `value` where that value is a
/// string; `None` where it is not.
pub uninterp spec fn json_string_content(value: Seq<char>) -> Option<Seq<char>>;

/// How the value with text `value` is shown for debugging.
pub uninterp spec fn json_debug_text(value: Seq<char>) -> Seq<char>;

/// Keys and value texts of the members of an object in the making.
pub open spec fn member_texts(members: Seq<(String, serde_json::Value)>) -> Seq<
    (Seq<char>, Seq<char>),
> {
    members.map_values(|m: (String, serde_json::Value)| (m.0@, json_text(m.1)))
}

/// `serde_json::Value::from` on a `&str`: the JSON string that holds
/// `content`.
#[verifier::external_body]
pub(crate) fn json_string(content: &str) -> (value: serde_json::Value)
    ensures
        json_text(value) == json_string_text(content@),
{
    serde_json::Value::from(content)
}

/// `serde_json::Value::from` on a `u64`: the JSON number `n`, whose text
/// is its decimal numeral.
#[verifier::external_body]
pub(crate) fn json_number(n: u64) -> (value: serde_json::Value)
    ensures
        json_text(value) == decimal_text(n as nat),
{
    serde_json::Value::from(n)
}

/// `serde_json::Value::from_iter` on pairs of key and value: the JSON
/// object with these members.
#[verifier::external_body]
pub(crate) fn json_object(members: Vec<(String, serde_json::Value)>) -> (value: serde_json::Value)
    ensures
        json_text(value) == json_object_text(member_texts(members@)),
{
    serde_json::Value::from_iter(members)
}

/// `serde_json::Value::to_string`: the compact text of `value`.
#[verifier::external_body]
pub(crate) fn json_print(value: &serde_json::Value) -> (text: String)
    ensures
        text@ == json_text(*value),
{
    value.to_string()
}

/// `serde_json::from_slice` for a `Value`: the value that `input` holds, or
/// the error where `input` is not one JSON value.
#[verifier::external_body]
pub(crate) fn json_parse(input: &[u8]) -> (parsed: Result<serde_json::Value, serde_json::Error>)
    ensures
        match parsed {
            Ok(value) => json_parsed_text(input@) == Some(json_text(value)),
            Err(_) => json_parsed_text(input@) is None,
        },
{
    serde_json::from_slice(input)
}

/// Indexing a `serde_json::Value` by a `&str`: the member of that name, or
/// the null value where there is none.
#[verifier::external_body]
pub(crate) fn json_member<'a>(value: &'a serde_json::Value, key: &str) -> (found:
    &'a serde_json::Value)
    ensures
        json_text(*found) == json_member_text(json_text(*value), key@),
{
    &value[key]
}

/// `serde_json::Value::as_str`: the content of a string value.
#[verifier::external_body]
pub(crate) fn json_as_str<'a>(value: &'a serde_json::Value) -> (content: Option<&'a str>)
    ensures
        match content {
            Some(s) => json_string_content(json_text(*value)) == Some(s@),
            None => json_string_content(json_text(*value)) is None,
        },
{
    value.as_str()
}

/// The `Debug` format of a `serde_json::Value`.
#[verifier::external_body]
pub(crate) fn json_debug(value: &serde_json::Value) -> (shown: String)
    ensures
        shown@ == json_debug_text(json_text(*value)),
{
    format!("{:?}", value)
}

} // verus!
