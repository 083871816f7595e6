//! JSON payloads.
//!
//! A payload is held as a `serde_json::Value`. The contracts of this library
//! speak of it through [`JsonModel`], the mathematical value that it stands for.
//! What `serde_json` does to a payload is stated here and believed, not proved.

use vstd::prelude::*;

verus! {

/// What a JSON value holds.
pub ghost enum JsonModel {
    Null,
    Bool(bool),
    /// A number, by the text that stands for it in a JSON document.
    Number(Seq<char>),
    String(Seq<char>),
    Array(Seq<JsonModel>),
    /// An object: its members, each under its key.
    Object(Map<Seq<char>, JsonModel>),
}

impl JsonModel {
    /// The member of this object under `key`: none if this is no object, or if
    /// it has no such member.
    pub open spec fn member(self, key: Seq<char>) -> Option<JsonModel> {
        match self {
            JsonModel::Object(members) => if members.contains_key(key) {
                Some(members[key])
            } else {
                None
            },
            _ => None,
        }
    }

    /// The text of the member of this object under `key`, where that member is
    /// a string.
    pub open spec fn text_member(self, key: Seq<char>) -> Option<Seq<char>> {
        match self.member(key) {
            Some(JsonModel::String(text)) => Some(text),
            _ => None,
        }
    }

    /// This object with the string `text` as its member under `key`. What is no
    /// object is left as it is.
    pub open spec fn with_text_member(self, key: Seq<char>, text: Seq<char>) -> JsonModel {
        match self {
            JsonModel::Object(members) => JsonModel::Object(
                members.insert(key, JsonModel::String(text)),
            ),
            _ => self,
        }
    }
}

/// The type of JSON values of `serde_json`, opaque to the verifier.
#[verifier::external_type_specification]
#[verifier::external_body]
pub struct ExValue(serde_json::Value);

/// The type of errors of `serde_json`, opaque to the verifier.
#[verifier::external_type_specification]
#[verifier::external_body]
pub struct ExError(serde_json::Error);

/// What a `serde_json::Value` holds.
pub uninterp spec fn json_model(value: serde_json::Value) -> JsonModel;

/// The message of a `serde_json::Error`.
pub uninterp spec fn json_error_text(error: serde_json::Error) -> Seq<char>;

/// What `serde_json` makes of a text read as a JSON document: the value that
/// the text stands for, or the message of the error that it raises.
pub uninterp spec fn json_parse(text: Seq<char>) -> Result<JsonModel, Seq<char>>;

/// The compact JSON text that `serde_json` prints for a value, the members of
/// an object in the order of their keys. (With its feature `preserve_order`,
/// which this library does not ask for, `serde_json` would print the members in
/// the order in which they came, and the text would not depend on the value
/// alone.)
pub uninterp spec fn json_text(value: JsonModel) -> Seq<char>;

/// `serde_json::from_str`, reading a `Value`: the outcome depends on the text
/// alone, and is what [`json_parse`] names.
#[verifier::external_body]
pub(crate) fn parse(text: &str) -> (parsed: Result<serde_json::Value, serde_json::Error>)
    ensures
        match parsed {
            Ok(value) => json_parse(text@) == Ok::<JsonModel, Seq<char>>(json_model(value)),
            Err(error) => json_parse(text@) == Err::<JsonModel, Seq<char>>(
                json_error_text(error),
            ),
        },
{
    serde_json::from_str::<serde_json::Value>(text)
}

/// The `Display` of `serde_json::Error`, through `to_string`: the message of
/// the error.
#[verifier::external_body]
pub(crate) fn error_message(error: &serde_json::Error) -> (message: String)
    ensures
        message@ == json_error_text(*error),
{
    error.to_string()
}

/// `Value::get` with a text as index: the member of an object under that key,
/// and nothing for a missing key or for a value that is no object.
#[verifier::external_body]
pub(crate) fn member<'a>(value: &'a serde_json::Value, key: &str) -> (found: Option<
    &'a serde_json::Value,
>)
    ensures
        match found {
            Some(m) => json_model(*value).member(key@) == Some(json_model(*m)),
            None => json_model(*value).member(key@) is None,
        },
{
    value.get(key)
}

/// `Value::as_str`: the text of a string, and nothing for any other value.
#[verifier::external_body]
pub(crate) fn as_text<'a>(value: &'a serde_json::Value) -> (text: Option<&'a str>)
    ensures
        match text {
            Some(t) => json_model(*value) == JsonModel::String(t@),
            None => !(json_model(*value) is String),
        },
{
    value.as_str()
}

/// `Value::is_object`.
#[verifier::external_body]
pub(crate) fn is_object(value: &serde_json::Value) -> (object: bool)
    ensures
        object == (json_model(*value) is Object),
{
    value.is_object()
}

/// `Map::insert` of a string into the members of an object: the object gets
/// the string as its member under the key, in the place of the member that was
/// there, if any.
#[verifier::external_body]
pub(crate) fn insert_text(value: &mut serde_json::Value, key: &str, text: &str)
    requires
        json_model(*old(value)) is Object,
    ensures
        json_model(*final(value)) == json_model(*old(value)).with_text_member(key@, text@),
{
    if let serde_json::Value::Object(members) = value {
        members.insert(key.to_owned(), serde_json::Value::String(text.to_owned()));
    }
}

/// `Value::Object` of `Map::new`: an object without members.
#[verifier::external_body]
pub(crate) fn empty_object() -> (value: serde_json::Value)
    ensures
        json_model(value) == JsonModel::Object(Map::<Seq<char>, JsonModel>::empty()),
{
    serde_json::Value::Object(serde_json::Map::new())
}

/// The `Display` of `Value`, through `to_string`: the compact JSON text of the
/// value.
#[verifier::external_body]
pub(crate) fn to_text(value: &serde_json::Value) -> (text: String)
    ensures
        text@ == json_text(json_model(*value)),
{
    value.to_string()
}

/// The `Clone` of `Value`: a value that holds the same.
pub assume_specification[ <serde_json::Value as Clone>::clone ](
    value: &serde_json::Value,
) -> (copy: serde_json::Value)
    ensures
        json_model(copy) == json_model(*value),
;

/// Gives the object `value` the string `text` as its member under `key`. A
/// value that is no object is left as it is.
pub fn set_text_member(value: &mut serde_json::Value, key: &str, text: &str)
    ensures
        json_model(*final(value)) == json_model(*old(value)).with_text_member(key@, text@),
{
    if is_object(value) {
        insert_text(value, key, text);
    }
}

/// The text of the member of `value` under `key`, where `value` is an object
/// and that member is a string.
pub fn text_member<'a>(value: &'a serde_json::Value, key: &str) -> (text: Option<&'a str>)
    ensures
        match text {
            Some(t) => json_model(*value).text_member(key@) == Some(t@),
            None => json_model(*value).text_member(key@) is None,
        },
{
    match member(value, key) {
        Some(found) => as_text(found),
        None => None,
    }
}

} // verus!
