//! Reading JSON, which is left to `serde_json`.
//!
//! Nothing in this file is proved: each function states what the function of
//! `serde_json` that it calls returns, and the rest of the library is proved
//! from these statements.

use vstd::prelude::*;

verus! {

/// A JSON document as `serde_json` holds it.
#[verifier::external_type_specification]
#[verifier::external_body]
pub struct ExJsonValue(serde_json::Value);

/// The reason `serde_json` gives for rejecting a text.
#[verifier::external_type_specification]
#[verifier::external_body]
pub struct ExJsonError(serde_json::Error);

/// The document that `serde_json::from_slice` reads from `text`, or `None`
/// where it rejects `text`.
pub uninterp spec fn json_document(text: Seq<u8>) -> Option<serde_json::Value>;

/// What `serde_json::Value::get` finds in `value` under the key `key`.
pub uninterp spec fn json_member(value: serde_json::Value, key: Seq<char>) -> Option<
    serde_json::Value,
>;

/// What `serde_json::Value::as_str` returns for `value`: its text where
/// `value` is a string.
pub uninterp spec fn json_text(value: serde_json::Value) -> Option<Seq<char>>;

/// What `serde_json::Value::as_u64` returns for `value`: its number where
/// `value` is an integer from 0 to `u64::MAX`.
pub uninterp spec fn json_count(value: serde_json::Value) -> Option<u64>;

/// `serde_json::from_slice` for a `Value`: the result is a function of the
/// bytes alone.
#[verifier::external_body]
pub(crate) fn json_parse(text: &[u8]) -> (parsed: Result<serde_json::Value, serde_json::Error>)
    ensures
        match parsed {
            Ok(value) => json_document(text@) == Some(value),
            Err(_) => json_document(text@) is None,
        },
{
    serde_json::from_slice::<serde_json::Value>(text)
}

/// `serde_json::Value::get` with a text key: the result is a function of the
/// value and the key.
#[verifier::external_body]
pub(crate) fn json_get<'a>(value: &'a serde_json::Value, key: &str) -> (member: Option<
    &'a serde_json::Value,
>)
    ensures
        match member {
            Some(found) => json_member(*value, key@) == Some(*found),
            None => json_member(*value, key@) is None,
        },
{
    value.get(key)
}

/// `serde_json::Value::as_str`, with the text copied out: the result is a
/// function of the value.
#[verifier::external_body]
pub(crate) fn json_as_str(value: &serde_json::Value) -> (text: Option<String>)
    ensures
        match text {
            Some(found) => json_text(*value) == Some(found@),
            None => json_text(*value) is None,
        },
{
    value.as_str().map(String::from)
}

/// `serde_json::Value::as_u64`: the result is a function of the value.
#[verifier::external_body]
pub(crate) fn json_as_u64(value: &serde_json::Value) -> (count: Option<u64>)
    ensures
        count == json_count(*value),
{
    value.as_u64()
}

/// The message of a `serde_json::Error`, of which nothing is claimed.
#[verifier::external_body]
pub(crate) fn json_error_text(error: &serde_json::Error) -> (text: String) {
    error.to_string()
}

} // verus!
