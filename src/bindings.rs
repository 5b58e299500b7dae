//! The calls this library makes into serde_json and chrono.
//!
//! A `serde_json::Value` is opaque here: the library carries it through and
//! reads it only through the functions below, whose results it treats as
//! arbitrary.
use vstd::prelude::*;

verus! {

#[verifier::external_type_specification]
#[verifier::external_body]
pub struct ExValue(serde_json::Value);

/// Relies on `serde_json::Value::get` with a string key: the member of an
/// object stored under `key`, copied out.
#[verifier::external_body]
pub(crate) fn member(v: &serde_json::Value, key: &str) -> (r: Option<serde_json::Value>) {
    v.get(key).cloned()
}

/// Relies on `serde_json::Value::as_str`: the text of a string value.
#[verifier::external_body]
pub(crate) fn string_of(v: &serde_json::Value) -> (r: Option<String>) {
    v.as_str().map(|s| s.to_string())
}

/// Relies on `serde_json::Value::as_bool`: the flag of a boolean value.
#[verifier::external_body]
pub(crate) fn bool_of(v: &serde_json::Value) -> (r: Option<bool>) {
    v.as_bool()
}

/// Relies on `serde_json::Value::as_array`: the elements of an array value.
#[verifier::external_body]
pub(crate) fn array_of(v: &serde_json::Value) -> (r: Option<Vec<serde_json::Value>>) {
    v.as_array().cloned()
}

/// Whether serde_json reads `text` as one JSON document.
pub uninterp spec fn is_json_document(text: Seq<char>) -> bool;

/// The document serde_json reads from `text`, where it reads one.
pub uninterp spec fn document_of(text: Seq<char>) -> serde_json::Value;

/// Relies on `serde_json::Map::new`: a value holding the empty object `{}`,
/// the same value that `serde_json::from_str` reads from the text `{}`.
#[verifier::external_body]
pub(crate) fn empty_object() -> (r: serde_json::Value)
    ensures
        r == document_of("{}"@),
{
    serde_json::Value::Object(serde_json::Map::new())
}

/// Relies on `serde_json::from_str`: the document that `text` holds, or the
/// parser's message. The outcome depends on the text alone.
#[verifier::external_body]
pub(crate) fn parse_document(text: &str) -> (r: Result<serde_json::Value, String>)
    ensures
        r is Ok <==> is_json_document(text@),
        r is Ok ==> r->Ok_0 == document_of(text@),
{
    serde_json::from_str::<serde_json::Value>(text).map_err(|e| e.to_string())
}

/// Relies on `serde_json::to_string_pretty`: the indented text of a value, or
/// `None` where it cannot be written.
#[verifier::external_body]
pub(crate) fn pretty_text(v: &serde_json::Value) -> (r: Option<String>) {
    serde_json::to_string_pretty(v).ok()
}

/// Relies on `chrono::Utc::now` and `DateTime::timestamp_millis`: the current
/// time in milliseconds since the Unix epoch. Nothing is known of the value.
#[verifier::external_body]
pub(crate) fn now_millis() -> (r: i64) {
    chrono::Utc::now().timestamp_millis()
}

} // verus!
