//! From JSON text to a parsed document.
//!
//! The text itself is read by serde_json; everything past that boundary —
//! turning the value tree into the typed model — is the library's own,
//! verified decoding.

use vstd::prelude::*;
use crate::json::JsonValue;
use crate::decode::{ParseError, decode_document, spec_decode_document};
use crate::model::TaskConfiguration;

verus! {

#[verifier::external_type_specification]
#[verifier::external_body]
pub struct ExValue(serde_json::Value);

/// The JSON document tree that a text denotes, if the text is one
/// well-formed JSON document; `None` where it is malformed.
pub uninterp spec fn json_doc_of(s: Seq<char>) -> Option<JsonValue>;

/// Carries serde_json's value tree over into the library's: one arm per
/// variant, moving fields; a number is carried as its decimal text, and
/// object entries arrive in serde_json's deterministic (sorted) key order.
#[verifier::external_body]
fn value_to_json(v: serde_json::Value) -> (r: JsonValue) {
    match v {
        serde_json::Value::Null => JsonValue::Null,
        serde_json::Value::Bool(b) => JsonValue::Bool(b),
        serde_json::Value::Number(n) => JsonValue::Num(n.to_string()),
        serde_json::Value::String(s) => JsonValue::Str(s),
        serde_json::Value::Array(a) => JsonValue::Arr(
            a.into_iter().map(value_to_json).collect(),
        ),
        serde_json::Value::Object(m) => JsonValue::Obj(
            m.into_iter().map(|(k, val)| (k, value_to_json(val))).collect(),
        ),
    }
}

/// Relies on serde_json::from_str: it reads the whole text as one JSON
/// document or fails, and its result depends on the text alone; the
/// value tree it yields, carried into the library's model, is what
/// `json_doc_of` names. A failure's message is passed along.
#[verifier::external_body]
fn parse_json_text(text: &str) -> (r: Result<JsonValue, String>)
    ensures
        r matches Ok(v) ==> json_doc_of(text@) == Some(v),
        r is Err <==> json_doc_of(text@) is None,
{
    match serde_json::from_str::<serde_json::Value>(text) {
        Ok(v) => Ok(value_to_json(v)),
        Err(e) => Err(e.to_string()),
    }
}

/// Parse a task-configuration document from JSON text: malformed text,
/// or a well-formed document with a wrongly-typed field, is a parse
/// error; everything else decodes with per-field defaults.
pub fn parse(text: &str) -> (r: Result<TaskConfiguration, ParseError>)
    ensures
        match json_doc_of(text@) {
            Some(v) => (r matches Ok(d) ==> spec_decode_document(v) == Some(d@)) && (r is Err
                <==> spec_decode_document(v) is None),
            None => r is Err,
        },
{
    match parse_json_text(text) {
        Ok(v) => decode_document(&v),
        Err(msg) => Err(ParseError { msg }),
    }
}

} // verus!
