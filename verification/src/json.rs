//! The JSON queries of the crate: a string or integer field of a JSON object.
use vstd::prelude::*;

verus! {

/// The string value of the field `key` of the JSON object that `text`
/// parses to; `None` when `text` is not such an object or the field is
/// missing or not a string.
pub uninterp spec fn json_string_field(text: Seq<char>, key: Seq<char>) -> Option<Seq<char>>;

/// Calls `serde_json::from_str` into a `serde_json::Value` and reads the
/// string field `key`; the result is named `json_string_field`.
#[verifier::external_body]
pub(crate) fn json_str_field(text: &str, key: &str) -> (res: Option<String>)
    ensures
        match res {
            Some(s) => json_string_field(text@, key@) == Some(s@),
            None => json_string_field(text@, key@) is None,
        },
{
    match serde_json::from_str::<serde_json::Value>(text) {
        Ok(v) => match v.get(key) {
            Some(serde_json::Value::String(s)) => Some(s.clone()),
            _ => None,
        },
        Err(_) => None,
    }
}

/// The value of the field `key` of the JSON object that `text` parses to,
/// when that value is an integer that fits in an `i64`; `None` otherwise.
pub uninterp spec fn json_i64_field_of(text: Seq<char>, key: Seq<char>) -> Option<i64>;

/// Calls `serde_json::from_str` into a `serde_json::Value`, reads the field
/// `key` and `Value::as_i64` on it; the result is named `json_i64_field_of`.
#[verifier::external_body]
pub(crate) fn json_i64_field(text: &str, key: &str) -> (res: Option<i64>)
    ensures
        res == json_i64_field_of(text@, key@),
{
    match serde_json::from_str::<serde_json::Value>(text) {
        Ok(v) => v.get(key).and_then(serde_json::Value::as_i64),
        Err(_) => None,
    }
}

} // verus!
