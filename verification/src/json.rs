//! The trusted boundary to serde_json.  Payloads are structured text; this
//! crate parses them with serde_json and then reads the parsed value through
//! the small wrappers below.  A `serde_json::Value` is opaque to the
//! verifier: everything the decoding logic learns of one, it learns by
//! calling these wrappers and testing what came back.

use vstd::prelude::*;

verus! {

#[verifier::external_type_specification]
#[verifier::external_body]
pub struct ExValue(serde_json::Value);

#[verifier::external_type_specification]
#[verifier::external_body]
pub struct ExNumber(serde_json::Number);

/// Whether the bytes form one valid JSON document, as serde_json accepts it.
pub uninterp spec fn json_ok(bytes: Seq<u8>) -> bool;

/// Relies on serde_json::from_slice::<Value>: parsing succeeds or fails on
/// the bytes alone, and succeeds exactly on valid JSON documents.  A failure
/// is handed back as its diagnostic text, read through the parse error's
/// Display impl.
#[verifier::external_body]
pub(crate) fn parse_json(bytes: &[u8]) -> (r: Result<serde_json::Value, String>)
    ensures
        r is Ok <==> json_ok(bytes@),
{
    match serde_json::from_slice::<serde_json::Value>(bytes) {
        Ok(v) => Ok(v),
        Err(e) => Err(e.to_string()),
    }
}

/// Relies on serde_json::Value::get: the value at a key, if this value is an
/// object and the key is present.
#[verifier::external_body]
pub(crate) fn get_field(v: &serde_json::Value, key: &str) -> (r: Option<serde_json::Value>) {
    v.get(key).cloned()
}

/// Relies on serde_json::Value::as_bool: the boolean this value holds, if it
/// is one.
#[verifier::external_body]
pub(crate) fn as_bool(v: &serde_json::Value) -> (r: Option<bool>) {
    v.as_bool()
}

/// Relies on serde_json::Value::as_u64: the integer this value holds, if it
/// is a non-negative integer that fits in 64 bits.
#[verifier::external_body]
pub(crate) fn as_u64(v: &serde_json::Value) -> (r: Option<u64>) {
    v.as_u64()
}

/// Relies on serde_json::Value::as_str: the text this value holds, if it is
/// a string.
#[verifier::external_body]
pub(crate) fn as_string(v: &serde_json::Value) -> (r: Option<String>) {
    match v.as_str() {
        Some(s) => Some(s.to_owned()),
        None => None,
    }
}

/// Relies on serde_json::Value::as_array: the elements of this value, if it
/// is an array.
#[verifier::external_body]
pub(crate) fn as_array(v: &serde_json::Value) -> (r: Option<Vec<serde_json::Value>>) {
    v.as_array().cloned()
}

/// Relies on serde_json::Value::as_number: the number this value holds, if
/// it is one.
#[verifier::external_body]
pub(crate) fn as_number(v: &serde_json::Value) -> (r: Option<serde_json::Number>) {
    v.as_number().cloned()
}

} // verus!
