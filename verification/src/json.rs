//! JSON documents, read through `serde_json`.
//!
//! `serde_json` parses and holds the documents. The library sees a document as
//! a `JsonModel`; the functions of this file are the only ones that touch a
//! `serde_json::Value`, and their contracts are taken on trust.

use vstd::prelude::*;

verus! {

/// What a JSON value holds, as far as this library looks into one.
pub enum JsonModel {
    /// A string, by its characters.
    Text(Seq<char>),
    /// A number that is an integer from 0 to `u64::MAX`.
    Unsigned(u64),
    /// An object, by its members.
    Object(Map<Seq<char>, JsonModel>),
    /// Anything else: null, a boolean, any other number, an array.
    Other,
}

impl JsonModel {
    /// The member of an object under a key; nothing but an object has members.
    pub open spec fn member(self, key: Seq<char>) -> Option<JsonModel> {
        match self {
            JsonModel::Object(members) => if members.contains_key(key) {
                Some(members[key])
            } else {
                None
            },
            _ => None,
        }
    }
}

/// `serde_json::Value`, a parsed JSON document.
#[verifier::external_type_specification]
#[verifier::external_body]
pub struct ExJsonValue(serde_json::Value);

/// `serde_json::Error`, the reason why a text is no JSON document.
#[verifier::external_type_specification]
#[verifier::external_body]
pub struct ExJsonError(serde_json::Error);

/// What a `serde_json::Value` holds.
pub uninterp spec fn json_model(value: serde_json::Value) -> JsonModel;

/// What `serde_json::from_str` makes of a text: the document, or nothing where
/// the text is not JSON.
pub uninterp spec fn json_parse(text: Seq<char>) -> Option<JsonModel>;

/// `serde_json::from_str`, for a `serde_json::Value`. Trusted: the outcome
/// depends on the text alone, and a value that comes back holds the document
/// that `json_parse` names.
#[verifier::external_body]
pub(crate) fn parse_json(text: &str) -> (parsed: Result<serde_json::Value, serde_json::Error>)
    ensures
        match parsed {
            Ok(value) => json_parse(text@) == Some(json_model(value)),
            Err(_) => json_parse(text@) is None,
        },
{
    serde_json::from_str::<serde_json::Value>(text)
}

/// `serde_json::Value::get` with a string index. Trusted: it finds the member
/// of an object under `key`, and nothing in a value that is no object or has
/// no such member.
#[verifier::external_body]
pub(crate) fn json_member<'a>(value: &'a serde_json::Value, key: &str) -> (member: Option<
    &'a serde_json::Value,
>)
    ensures
        match member {
            Some(found) => json_model(*value).member(key@) == Some(json_model(*found)),
            None => json_model(*value).member(key@) is None,
        },
{
    value.get(key)
}

/// `serde_json::Value::as_str`. Trusted: it hands out the characters of a
/// string, and nothing for any other value.
#[verifier::external_body]
pub(crate) fn json_text<'a>(value: &'a serde_json::Value) -> (text: Option<&'a str>)
    ensures
        match text {
            Some(characters) => json_model(*value) == JsonModel::Text(characters@),
            None => !(json_model(*value) is Text),
        },
{
    value.as_str()
}

/// `serde_json::Value::as_u64`. Trusted: it hands out a number that is an
/// integer from 0 to `u64::MAX`, and nothing for any other value.
#[verifier::external_body]
pub(crate) fn json_unsigned(value: &serde_json::Value) -> (number: Option<u64>)
    ensures
        match number {
            Some(n) => json_model(*value) == JsonModel::Unsigned(n),
            None => !(json_model(*value) is Unsigned),
        },
{
    value.as_u64()
}

/// The `Display` text of a `serde_json::Error`. Nothing is claimed of it.
#[verifier::external_body]
pub(crate) fn json_error_text(error: &serde_json::Error) -> String {
    error.to_string()
}

} // verus!
