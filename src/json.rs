//! The JSON items this library relies on. `serde_json::Value` is carried
//! through opaquely; what the logic reads out of a value arrives as plain
//! strings and booleans.

use vstd::prelude::*;

verus! {

#[verifier::external_type_specification]
#[verifier::external_body]
pub struct ExJsonValue(serde_json::Value);

#[verifier::external_type_specification]
#[verifier::external_body]
pub struct ExJsonError(serde_json::Error);

/// The document `serde_json` reads from these bytes, or `None` where they
/// are not one JSON document.
pub uninterp spec fn json_document_of(b: Seq<u8>) -> Option<serde_json::Value>;

/// The string held under `key` when `v` is an object whose entry there is a string.
pub uninterp spec fn json_text_field(v: serde_json::Value, key: Seq<char>) -> Option<Seq<char>>;

/// The boolean held under `key` when `v` is an object whose entry there is a boolean.
pub uninterp spec fn json_bool_field(v: serde_json::Value, key: Seq<char>) -> Option<bool>;

/// The elements of `v` when it is an array.
pub uninterp spec fn json_array_of(v: serde_json::Value) -> Option<Seq<serde_json::Value>>;

/// Whether the bytes form one JSON document.
pub open spec fn json_text_valid(b: Seq<u8>) -> bool {
    json_document_of(b) is Some
}

/// What `serde_json` writes for a string: its quoted and escaped JSON text,
/// or `None` where serialisation fails.
pub uninterp spec fn json_text_of_str(s: Seq<char>) -> Option<Seq<u8>>;

/// Relies on `serde_json::from_slice::<Value>`: the document depends on the
/// bytes alone, and it fails exactly on bytes that are not a JSON document.
#[verifier::external_body]
pub(crate) fn parse_json(b: &[u8]) -> (r: Result<serde_json::Value, serde_json::Error>)
    ensures
        match r {
            Ok(v) => json_document_of(b@) == Option::Some(v),
            Err(_) => json_document_of(b@) is None,
        },
{
    serde_json::from_slice::<serde_json::Value>(b)
}

/// Relies on `serde_json::to_vec` applied to a `str`: the JSON text of the
/// string, named `json_text_of_str`. Writing a string into a `Vec` does not fail.
#[verifier::external_body]
pub(crate) fn quote_json_text(s: &str) -> (r: Option<Vec<u8>>)
    ensures
        r is Some,
        match r {
            Option::Some(b) => json_text_of_str(s@) == Option::Some(b@),
            Option::None => json_text_of_str(s@) is None,
        },
{
    serde_json::to_vec(s).ok()
}

/// Relies on `Value::get` followed by `Value::as_str`: the string held under
/// `key` when `v` is an object whose entry there is a string.
#[verifier::external_body]
pub(crate) fn text_field(v: &serde_json::Value, key: &str) -> (r: Option<String>)
    ensures
        match r {
            Option::Some(s) => json_text_field(*v, key@) == Option::Some(s@),
            Option::None => json_text_field(*v, key@) is None,
        },
{
    v.get(key).and_then(serde_json::Value::as_str).map(String::from)
}

/// Relies on `Value::get` followed by `Value::as_bool`: the boolean held
/// under `key` when `v` is an object whose entry there is a boolean.
#[verifier::external_body]
pub(crate) fn bool_field(v: &serde_json::Value, key: &str) -> (r: Option<bool>)
    ensures
        r == json_bool_field(*v, key@),
{
    v.get(key).and_then(serde_json::Value::as_bool)
}

/// Relies on `Value::as_array`: the elements of `v` when it is an array.
#[verifier::external_body]
pub(crate) fn array_items(v: &serde_json::Value) -> (r: Option<Vec<serde_json::Value>>)
    ensures
        match r {
            Option::Some(items) => json_array_of(*v) == Option::Some(items@),
            Option::None => json_array_of(*v) is None,
        },
{
    v.as_array().cloned()
}

/// Relies on the `Display` of `serde_json::Error`: a description of why the
/// bytes were refused.
#[verifier::external_body]
pub(crate) fn describe_json_error(e: &serde_json::Error) -> String {
    e.to_string()
}

} // verus!
