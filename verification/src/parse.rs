//! Parsing directory text into the library's JSON model.
//!
//! The parse itself is done by serde_json and stands behind trusted items;
//! everything that is read out of the parsed document afterwards is verified
//! code over [`crate::json::JsonValue`].

use vstd::prelude::*;
use crate::json::JsonValue;

verus! {

/// serde_json's parsed document type, declared so that values of it can pass
/// between the two trusted functions below; the library never looks inside
/// one except through `value_to_model`.
#[verifier::external_type_specification]
#[verifier::external_body]
pub struct ExValue(serde_json::Value);

/// The document that serde_json parses out of `bytes`, carried over into the
/// library's model; `None` when the bytes are not valid JSON text (invalid
/// UTF-8 included). The parse depends on the bytes alone.
pub uninterp spec fn spec_parse_json(bytes: Seq<u8>) -> Option<JsonValue>;

/// What a parsed `serde_json::Value` holds, read as the library's model.
pub uninterp spec fn value_model(v: serde_json::Value) -> JsonValue;

/// Relies on serde_json::from_slice::<Value>: parses JSON text from bytes,
/// rejecting invalid UTF-8 and invalid syntax alike.
#[verifier::external_body]
fn value_from_bytes(bytes: &[u8]) -> (r: Option<serde_json::Value>)
    ensures
        match r {
            Some(v) => spec_parse_json(bytes@) == Some(value_model(v)),
            None => spec_parse_json(bytes@) is None,
        },
{
    serde_json::from_slice::<serde_json::Value>(bytes).ok()
}

/// Relies on serde_json::Value's variants and Number::as_u64: copies a parsed
/// document into the library's model, variant for variant; a number is kept
/// as an integer exactly when as_u64 reads it as one.
#[verifier::external_body]
fn value_to_model(v: &serde_json::Value) -> (r: JsonValue)
    ensures
        r == value_model(*v),
{
    match v {
        serde_json::Value::Null => JsonValue::Null,
        serde_json::Value::Bool(b) => JsonValue::Bool(*b),
        serde_json::Value::Number(n) => match n.as_u64() {
            Some(u) => JsonValue::UInt(u),
            None => JsonValue::OtherNum,
        },
        serde_json::Value::String(s) => JsonValue::Str(s.as_bytes().to_vec()),
        serde_json::Value::Array(a) => JsonValue::Arr(a.iter().map(value_to_model).collect()),
        serde_json::Value::Object(m) => JsonValue::Obj(
            m.iter().map(|(k, x)| (k.as_bytes().to_vec(), value_to_model(x))).collect(),
        ),
    }
}

/// Parses `bytes` as one JSON document; `None` when they are not one.
pub fn parse_json(bytes: &[u8]) -> (r: Option<JsonValue>)
    ensures
        r == spec_parse_json(bytes@),
{
    match value_from_bytes(bytes) {
        Some(v) => Some(value_to_model(&v)),
        None => None,
    }
}

} // verus!
