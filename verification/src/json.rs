//! Trusted view of `serde_json`.
//!
//! A `serde_json::Value` travels through the library as an opaque datum. What
//! it holds is named by [`json_model`]; the few questions the library asks of a
//! value are answered by `serde_json` itself, through the wrappers below,
//! whose contracts are believed and not proved.

use crate::text;
use vstd::prelude::*;

verus! {

/// `serde_json::Value`, opaque to the verifier.
#[verifier::external_type_specification]
#[verifier::external_body]
pub struct ExJsonValue(serde_json::Value);

/// `serde_json::Error`, opaque to the verifier.
#[verifier::external_type_specification]
#[verifier::external_body]
pub struct ExJsonError(serde_json::Error);

/// A JSON document as a mathematical value. A number stands by its JSON text,
/// which the library never inspects.
pub enum JsonModel {
    Null,
    Boolean(bool),
    Number(Seq<char>),
    Text(Seq<char>),
    Array(Seq<JsonModel>),
    Object(Map<Seq<char>, JsonModel>),
}

/// What a `serde_json::Value` holds.
pub uninterp spec fn json_model(value: serde_json::Value) -> JsonModel;

/// The document that `serde_json::from_str::<Value>` reads from a text, or
/// `None` where it rejects the text.
pub uninterp spec fn json_parse(text: Seq<char>) -> Option<JsonModel>;

/// The document that `serde_json::from_slice::<Value>` reads from bytes, or
/// `None` where it rejects them.
pub uninterp spec fn json_parse_bytes(bytes: Seq<u8>) -> Option<JsonModel>;

/// The member of an object under a key, if the document is an object that
/// holds the key.
pub open spec fn member_of(doc: JsonModel, key: Seq<char>) -> Option<JsonModel> {
    match doc {
        JsonModel::Object(members) => if members.contains_key(key) {
            Some(members[key])
        } else {
            None
        },
        _ => None,
    }
}

/// The text of a document that is a string.
pub open spec fn text_of(doc: JsonModel) -> Option<Seq<char>> {
    match doc {
        JsonModel::Text(s) => Some(s),
        _ => None,
    }
}

/// The text of the member under a key, if that member is a string.
pub open spec fn text_member(doc: JsonModel, key: Seq<char>) -> Option<Seq<char>> {
    match member_of(doc, key) {
        Some(m) => text_of(m),
        None => None,
    }
}

/// Calls `serde_json::from_str::<Value>`. Parsing depends on the text alone;
/// the contract names its outcome [`json_parse`] and claims nothing more.
#[verifier::external_body]
pub(crate) fn parse(text: &str) -> (r: Result<serde_json::Value, serde_json::Error>)
    ensures
        match r {
            Ok(v) => json_parse(text@) == Some(json_model(v)),
            Err(_) => json_parse(text@).is_none(),
        },
{
    serde_json::from_str::<serde_json::Value>(text)
}

/// Calls `serde_json::from_slice::<Value>`. Parsing depends on the bytes
/// alone; the contract names its outcome [`json_parse_bytes`] and claims
/// nothing more.
#[verifier::external_body]
pub(crate) fn parse_bytes(bytes: &[u8]) -> (r: Result<serde_json::Value, serde_json::Error>)
    ensures
        match r {
            Ok(v) => json_parse_bytes(bytes@) == Some(json_model(v)),
            Err(_) => json_parse_bytes(bytes@).is_none(),
        },
{
    serde_json::from_slice::<serde_json::Value>(bytes)
}

/// Calls `Value::get` with a string key: the member under that key where the
/// value is an object holding it, `None` for every other value.
#[verifier::external_body]
pub(crate) fn member<'a>(value: &'a serde_json::Value, key: &str) -> (r: Option<
    &'a serde_json::Value,
>)
    ensures
        match r {
            Some(m) => member_of(json_model(*value), key@) == Some(json_model(*m)),
            None => member_of(json_model(*value), key@).is_none(),
        },
{
    value.get(key)
}

/// Calls `Value::as_str`: the text where the value is a string, `None`
/// otherwise.
#[verifier::external_body]
pub(crate) fn string<'a>(value: &'a serde_json::Value) -> (r: Option<&'a str>)
    ensures
        match r {
            Some(s) => text_of(json_model(*value)) == Some(s@),
            None => text_of(json_model(*value)).is_none(),
        },
{
    value.as_str()
}

/// Calls `Value::is_null`.
#[verifier::external_body]
pub(crate) fn is_null(value: &serde_json::Value) -> (r: bool)
    ensures
        r == (json_model(*value) == JsonModel::Null),
{
    value.is_null()
}

/// What the values of a list hold, in order.
pub open spec fn models(values: Seq<serde_json::Value>) -> Seq<JsonModel> {
    values.map_values(|v: serde_json::Value| json_model(v))
}

/// Calls `Value::as_array`: the elements where the value is an array, `None`
/// otherwise.
#[verifier::external_body]
pub(crate) fn elements<'a>(value: &'a serde_json::Value) -> (r: Option<&'a Vec<serde_json::Value>>)
    ensures
        match r {
            Some(items) => json_model(*value) == JsonModel::Array(models(items@)),
            None => !(json_model(*value) is Array),
        },
{
    value.as_array()
}

/// The text of the member under a key, if the value is an object whose member
/// under that key is a string.
pub fn member_text(value: &serde_json::Value, key: &str) -> (r: Option<String>)
    ensures
        text::optional_text(r) == text_member(json_model(*value), key@),
{
    match member(value, key) {
        Some(m) => match string(m) {
            Some(s) => Some(text::owned(s)),
            None => None,
        },
        None => None,
    }
}

/// `Value::clone`: the copy holds what the cloned value holds.
pub assume_specification[ <serde_json::Value as Clone>::clone ](
    value: &serde_json::Value,
) -> (r: serde_json::Value)
    ensures
        json_model(r) == json_model(*value),
;

} // verus!
