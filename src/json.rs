//! Reading text members out of JSON documents.
use vstd::prelude::*;

verus! {

/// What a JSON document holds under a member name.
#[derive(Debug, Clone)]
pub enum JsonField {
    /// The document is no JSON.
    Unparsed,
    /// The value that should hold the member is no object.
    NotObject,
    /// The object has no such member.
    Missing,
    /// The member is `null`.
    Null,
    /// The member is a string.
    Text(String),
    /// The member is a number, a boolean, an array or an object.
    Other,
}

/// What `serde_json` reads in document `doc` under top-level member `key`.
pub uninterp spec fn json_field_of(doc: Seq<char>, key: Seq<char>) -> JsonField;

/// What `serde_json` reads in document `doc` under member `inner` of the
/// top-level member `outer` (`NotObject` when `outer` is missing or no object).
pub uninterp spec fn json_inner_field_of(doc: Seq<char>, outer: Seq<char>, inner: Seq<char>) -> JsonField;

/// Relies on `serde_json::from_str` and `serde_json::Value::get`: parses `doc`
/// and tells apart what its member `key` holds; the result depends on the
/// two texts alone.
#[verifier::external_body]
pub fn json_field(doc: &str, key: &str) -> (r: JsonField)
    ensures
        r == json_field_of(doc@, key@),
{
    match serde_json::from_str::<serde_json::Value>(doc) {
        Err(_) => JsonField::Unparsed,
        Ok(v) => match (&v, v.get(key)) {
            (serde_json::Value::Object(_), None) => JsonField::Missing,
            (serde_json::Value::Object(_), Some(serde_json::Value::Null)) => JsonField::Null,
            (serde_json::Value::Object(_), Some(serde_json::Value::String(s))) => JsonField::Text(s.clone()),
            (serde_json::Value::Object(_), Some(_)) => JsonField::Other,
            _ => JsonField::NotObject,
        },
    }
}

/// Relies on `serde_json::from_str` and `serde_json::Value::get`: parses `doc`
/// and tells apart what member `inner` of its member `outer` holds; the result
/// depends on the three texts alone.
#[verifier::external_body]
pub fn json_inner_field(doc: &str, outer: &str, inner: &str) -> (r: JsonField)
    ensures
        r == json_inner_field_of(doc@, outer@, inner@),
{
    match serde_json::from_str::<serde_json::Value>(doc) {
        Err(_) => JsonField::Unparsed,
        Ok(v) => match v.get(outer) {
            Some(o @ serde_json::Value::Object(_)) => match o.get(inner) {
                None => JsonField::Missing,
                Some(serde_json::Value::Null) => JsonField::Null,
                Some(serde_json::Value::String(s)) => JsonField::Text(s.clone()),
                Some(_) => JsonField::Other,
            },
            _ => JsonField::NotObject,
        },
    }
}

/// An optional text member: missing or `null` is `Some(None)`, a string is
/// `Some(Some(text))`, anything else is `None` (not an optional text).
pub open spec fn optional_text_of(f: JsonField) -> Option<Option<String>> {
    match f {
        JsonField::Missing => Some(None),
        JsonField::Null => Some(None),
        JsonField::Text(s) => Some(Some(s)),
        _ => None,
    }
}

/// Reads an optional text member.
pub fn optional_text(f: JsonField) -> (r: Option<Option<String>>)
    ensures
        r == optional_text_of(f),
{
    match f {
        JsonField::Missing => Some(None),
        JsonField::Null => Some(None),
        JsonField::Text(s) => Some(Some(s)),
        _ => None,
    }
}

/// The first string among the fields, in order.
pub open spec fn first_text(a: JsonField, b: JsonField, c: JsonField) -> Option<String> {
    if let JsonField::Text(s) = a {
        Some(s)
    } else if let JsonField::Text(s) = b {
        Some(s)
    } else if let JsonField::Text(s) = c {
        Some(s)
    } else {
        None
    }
}

/// Picks the first string among the fields, in order.
pub fn pick_first_text(a: JsonField, b: JsonField, c: JsonField) -> (r: Option<String>)
    ensures
        r == first_text(a, b, c),
{
    if let JsonField::Text(s) = a {
        Some(s)
    } else if let JsonField::Text(s) = b {
        Some(s)
    } else if let JsonField::Text(s) = c {
        Some(s)
    } else {
        None
    }
}

} // verus!
