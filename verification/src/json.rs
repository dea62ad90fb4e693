//! JSON documents.
//!
//! Documents are `serde_json::Value`s. Contracts speak of a document
//! through [`json_view`], which gives the texts, numbers and objects that
//! this crate builds.

use vstd::prelude::*;

verus! {

/// `serde_json::Value`, known to the contracts by [`json_view`] alone.
#[verifier::external_type_specification]
#[verifier::external_body]
pub struct ExJsonValue(serde_json::Value);

/// `serde_json::Map`, known to the contracts by [`json_fields`] alone.
#[verifier::external_type_specification]
#[verifier::external_body]
#[verifier::reject_recursive_types(K)]
#[verifier::reject_recursive_types(V)]
pub struct ExJsonMap<K, V>(serde_json::Map<K, V>);

/// `serde_json::Error`, carried through as it is.
#[verifier::external_type_specification]
#[verifier::external_body]
pub struct ExJsonError(serde_json::Error);

/// A JSON document as a mathematical value. The variants are those that
/// this crate writes; it writes no booleans, fractions or arrays.
pub enum JsonView {
    /// The JSON value `null`.
    Null,
    /// A JSON string.
    Text(Seq<char>),
    /// A JSON number without a fraction.
    Number(int),
    /// A JSON object: its keys with their values.
    Object(Map<Seq<char>, JsonView>),
}

/// The keys of a JSON object with their values.
pub type JsonFields = Map<Seq<char>, JsonView>;

/// The JSON objects of `serde_json`, keyed by strings.
pub type JsonObject = serde_json::Map<String, serde_json::Value>;

/// A JSON document, or the error of the serializer that was to build it.
pub type JsonResult = Result<serde_json::Value, serde_json::Error>;

/// What a `serde_json::Value` holds.
pub uninterp spec fn json_view(value: serde_json::Value) -> JsonView;

/// What a `serde_json::Map` holds.
pub uninterp spec fn json_fields(object: JsonObject) -> JsonFields;

/// `Value::from(String)`: a JSON string with the same text.
#[verifier::external_body]
pub(crate) fn json_text(text: String) -> (value: serde_json::Value)
    ensures
        json_view(value) == JsonView::Text(text@),
{
    serde_json::Value::from(text)
}

/// `Value::from(u16)`: a JSON number with the same value.
#[verifier::external_body]
pub(crate) fn json_number(number: u16) -> (value: serde_json::Value)
    ensures
        json_view(value) == JsonView::Number(number as int),
{
    serde_json::Value::from(number)
}

/// `Value::from(Map)`: a JSON object with the fields of the map.
#[verifier::external_body]
pub(crate) fn json_object(object: JsonObject) -> (value: serde_json::Value)
    ensures
        json_view(value) == JsonView::Object(json_fields(object)),
{
    serde_json::Value::from(object)
}

/// `Map::new`: an object without fields.
#[verifier::external_body]
pub(crate) fn new_json_object() -> (object: JsonObject)
    ensures
        json_fields(object) == JsonFields::empty(),
{
    serde_json::Map::new()
}

/// `Map::insert`: the key holds the new value, whatever it held before,
/// and every other key is as before.
#[verifier::external_body]
pub(crate) fn set_json_field(object: &mut JsonObject, key: &str, value: serde_json::Value)
    ensures
        json_fields(*final(object)) == json_fields(*old(object)).insert(key@, json_view(value)),
{
    object.insert(key.to_owned(), value);
}

} // verus!
