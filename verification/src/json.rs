//! JSON text, written by `serde_json`.
//!
//! The serializer is called on small documents only. What it returns is
//! named by `json_text`; the functions that build on it take the text as
//! an argument and are specified exactly.
use vstd::prelude::*;

use crate::text::{decimal_digits, str_of, text_of};

verus! {

/// The JSON documents that this library asks the serializer to write.
pub enum JsonDocument {
    /// The value `null`.
    Null,
    /// A number without sign or fraction.
    Number(u32),
    /// A string.
    Text(Seq<char>),
    /// An object with one key, whose value is a list of strings.
    KeyedList { key: Seq<char>, items: Seq<Seq<char>> },
}

/// The compact JSON text of `document`, or nothing where the serializer
/// reports an error.
pub uninterp spec fn json_text(document: JsonDocument) -> Option<Seq<char>>;

/// The document that stands for an optional port.
pub open spec fn port_document(port: Option<u32>) -> JsonDocument {
    match port {
        Some(number) => JsonDocument::Number(number),
        None => JsonDocument::Null,
    }
}

/// The document that stands for an optional text.
pub open spec fn text_document(text: Option<Seq<char>>) -> JsonDocument {
    match text {
        Some(content) => JsonDocument::Text(content),
        None => JsonDocument::Null,
    }
}

/// The document that names a list under one key.
pub open spec fn keyed_list(key: Seq<char>, items: Seq<Seq<char>>) -> JsonDocument {
    JsonDocument::KeyedList { key: key, items: items }
}

/// How an optional port reads in JSON: its decimal digits, or `null`.
pub open spec fn port_literal(port: Option<u32>) -> Seq<char> {
    match port {
        Some(number) => decimal_digits(number as nat),
        None => "null"@,
    }
}

/// Calls `serde_json::to_string` on an optional 32-bit number. The result
/// is the serializer's text for that document; where there is one, it is
/// the number in decimal digits, or `null` for an absent number.
#[verifier::external_body]
pub(crate) fn port_json(port: Option<u32>) -> (r: Option<String>)
    ensures
        text_of(r) == json_text(port_document(port)),
        r matches Some(text) ==> text@ == port_literal(port),
{
    serde_json::to_string(&port).ok()
}

/// Calls `serde_json::to_string` on an optional string. The result is the
/// serializer's text for that document.
#[verifier::external_body]
pub(crate) fn text_json(text: Option<&str>) -> (r: Option<String>)
    ensures
        text_of(r) == json_text(text_document(str_of(text))),
{
    serde_json::to_string(&text).ok()
}

/// Calls `serde_json::to_string` on an object that holds, under `key`, the
/// list of the one string `item`. The result is the serializer's text for
/// that document.
#[verifier::external_body]
pub(crate) fn keyed_item_json(key: &str, item: &str) -> (r: Option<String>)
    ensures
        text_of(r) == json_text(keyed_list(key@, seq![item@])),
{
    let mut object = serde_json::Map::new();
    object.insert(key.to_string(), serde_json::Value::from(vec![item.to_string()]));
    serde_json::to_string(&serde_json::Value::Object(object)).ok()
}

} // verus!
