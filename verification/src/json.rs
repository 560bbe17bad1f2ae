//! The JSON reading that the PulseAudio source listing needs, through
//! `serde_json`.
//!
//! A `serde_json::Value` is modelled by the text it holds: a map from JSON
//! pointer (such as `/properties/media.class`) to the string found there.

use vstd::prelude::*;

verus! {

/// `serde_json::Value`, carried through opaquely.
#[verifier::external_type_specification]
#[verifier::external_body]
pub struct ExJsonValue(serde_json::Value);

/// The strings that a JSON value holds, by JSON pointer: `pointer` is in the
/// map exactly when `value.pointer(pointer)` is a JSON string, and maps to
/// that string.
pub uninterp spec fn json_string_leaves(value: serde_json::Value) -> Map<Seq<char>, Seq<char>>;

/// What `serde_json::from_slice::<Vec<Value>>` makes of `bytes`: `None`
/// when they are not a JSON array, else the string leaves of each element.
pub uninterp spec fn json_array_parse(bytes: Seq<u8>) -> Option<Seq<Map<Seq<char>, Seq<char>>>>;

/// Calls `serde_json::from_slice::<Vec<serde_json::Value>>` and keeps the
/// value on success. The contract ties the outcome to `bytes` through the
/// name `json_array_parse`; which byte strings parse is not restated.
#[verifier::external_body]
pub(crate) fn parse_json_array(bytes: &[u8]) -> (r: Option<Vec<serde_json::Value>>)
    ensures
        r is None <==> json_array_parse(bytes@) is None,
        r matches Some(values) ==> json_array_parse(bytes@) == Some(
            values@.map_values(|v: serde_json::Value| json_string_leaves(v)),
        ),
{
    serde_json::from_slice::<Vec<serde_json::Value>>(bytes).ok()
}

/// Calls `serde_json::Value::pointer` and keeps the result when it is a
/// JSON string. The contract states that the result is the string leaf at
/// `pointer`, or nothing when there is none.
#[verifier::external_body]
pub(crate) fn json_string_at(value: &serde_json::Value, pointer: &str) -> (r: Option<String>)
    ensures
        r is Some <==> json_string_leaves(*value).contains_key(pointer@),
        r matches Some(s) ==> s@ == json_string_leaves(*value)[pointer@],
{
    match value.pointer(pointer) {
        Some(serde_json::Value::String(s)) => Some(s.clone()),
        _ => None,
    }
}

} // verus!
