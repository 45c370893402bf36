//! The node and edge collections of a document: JSON values that the
//! library carries and never looks into.

use vstd::prelude::*;

verus! {

#[verifier::external_type_specification]
#[verifier::external_body]
pub struct ExJsonValue(serde_json::Value);

/// The number of items that `as_array` finds in a JSON value; `None` where
/// the value is not an array.
pub uninterp spec fn json_items(value: serde_json::Value) -> Option<nat>;

/// The value is the JSON array without items.
pub open spec fn is_empty_list(value: serde_json::Value) -> bool {
    json_items(value) == Some(0nat)
}

/// Builds `serde_json::Value::Array` over an empty vector. Claimed:
/// `as_array` finds no item in it.
#[verifier::external_body]
pub(crate) fn empty_list() -> (value: serde_json::Value)
    ensures
        is_empty_list(value),
{
    serde_json::Value::Array(Vec::new())
}

/// Calls `clone` on a `serde_json::Value`. Claimed: the copy is the value
/// it was made from.
#[verifier::external_body]
pub(crate) fn copy_of(value: &serde_json::Value) -> (copy: serde_json::Value)
    ensures
        copy == *value,
{
    value.clone()
}

/// Calls `serde_json::Value::as_array` and takes the length of the vector
/// it finds.
#[verifier::external_body]
pub(crate) fn item_count(value: &serde_json::Value) -> (count: Option<usize>)
    ensures
        match count {
            Some(n) => json_items(*value) == Some(n as nat),
            None => json_items(*value).is_none(),
        },
{
    match value.as_array() {
        Some(items) => Some(items.len()),
        None => None,
    }
}

/// The value that `serde_json` reads out of a JSON text; `None` where the
/// text is not JSON.
pub uninterp spec fn json_parsed(text: Seq<char>) -> Option<serde_json::Value>;

/// Calls `serde_json::from_str` for a `serde_json::Value`. Claimed: the
/// outcome depends on the text alone.
#[verifier::external_body]
pub(crate) fn parse_json(text: &str) -> (value: Option<serde_json::Value>)
    ensures
        value == json_parsed(text@),
{
    match serde_json::from_str::<serde_json::Value>(text) {
        Ok(value) => Some(value),
        Err(_) => None,
    }
}

/// The payload that a JSON text stands for, and the empty list where the
/// text is not JSON.
pub open spec fn is_payload_of(value: serde_json::Value, text: Seq<char>) -> bool {
    match json_parsed(text) {
        Some(parsed) => value == parsed,
        None => is_empty_list(value),
    }
}

/// Reads a payload out of a JSON text; the empty list where the text is
/// not JSON.
pub fn payload_of(text: &str) -> (value: serde_json::Value)
    ensures
        is_payload_of(value, text@),
{
    match parse_json(text) {
        Some(value) => value,
        None => empty_list(),
    }
}

} // verus!
