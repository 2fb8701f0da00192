//! JSON documents as trees, and the way in and out of JSON text.
//!
//! Reading and writing the text is `serde_json`'s work. The library holds a
//! document as a tree of its own, which the codec reads and builds.

use vstd::prelude::*;
use crate::errors::DecodeError;

verus! {

/// `serde_json::Value`, a document as `serde_json` holds it. The library
/// sees nothing inside it: it is handed from the reading call to the
/// conversion, and from the conversion to the writing calls.
#[verifier::external_type_specification]
#[verifier::external_body]
pub struct ExValue(serde_json::Value);

/// `serde_json::Error`, what the reading call fails with. The library sees
/// nothing inside it and turns every such failure into `Malformed`.
#[verifier::external_type_specification]
#[verifier::external_body]
pub struct ExError(serde_json::Error);

/// A JSON document.
///
/// A number is held as an `i64` where it is an integer in that range; of any
/// other number the tree only records that it is one. The members of an
/// object stand in the order of the document.
#[derive(Debug)]
pub enum JsonValue {
    Null,
    Bool(bool),
    Number(Option<i64>),
    Text(String),
    Array(Vec<JsonValue>),
    Object(Vec<(String, JsonValue)>),
}

/// The mathematical value of a [`JsonValue`].
pub enum JsonModel {
    Null,
    Bool(bool),
    Number(Option<i64>),
    Text(Seq<char>),
    Array(Seq<JsonModel>),
    Object(Seq<(Seq<char>, JsonModel)>),
}

/// The mathematical value of a document.
pub open spec fn model_of(value: JsonValue) -> JsonModel
    decreases value,
{
    match value {
        JsonValue::Null => JsonModel::Null,
        JsonValue::Bool(b) => JsonModel::Bool(b),
        JsonValue::Number(n) => JsonModel::Number(n),
        JsonValue::Text(s) => JsonModel::Text(s@),
        JsonValue::Array(items) => JsonModel::Array(
            Seq::new(
                items@.len(),
                |i: int|
                    if 0 <= i < items@.len() {
                        model_of(items@[i])
                    } else {
                        JsonModel::Null
                    },
            ),
        ),
        JsonValue::Object(members) => JsonModel::Object(
            Seq::new(
                members@.len(),
                |i: int|
                    if 0 <= i < members@.len() {
                        (members@[i].0@, model_of(members@[i].1))
                    } else {
                        (Seq::empty(), JsonModel::Null)
                    },
            ),
        ),
    }
}

impl View for JsonValue {
    type V = JsonModel;

    open spec fn view(&self) -> JsonModel {
        model_of(*self)
    }
}

/// The members of an object, each as its key's characters and its value's
/// model.
pub open spec fn members_model(members: Seq<(String, JsonValue)>) -> Seq<(Seq<char>, JsonModel)> {
    Seq::new(members.len(), |i: int| (members[i].0@, members[i].1@))
}

/// The models of the elements of an array.
pub open spec fn items_model(items: Seq<JsonValue>) -> Seq<JsonModel> {
    Seq::new(items.len(), |i: int| items[i]@)
}

/// The model of an object is the object of its members' models, and the
/// model of an array the array of its elements' models.
pub proof fn lemma_view_of_collections(value: JsonValue)
    ensures
        value matches JsonValue::Object(members) ==> value@ == JsonModel::Object(
            members_model(members@),
        ),
        value matches JsonValue::Array(items) ==> value@ == JsonModel::Array(items_model(items@)),
{
    match value {
        JsonValue::Object(members) => {
            assert(value@->Object_0 =~= members_model(members@));
        },
        JsonValue::Array(items) => {
            assert(value@->Array_0 =~= items_model(items@));
        },
        _ => {},
    }
}

/// The document that `serde_json` reads from a text, or nothing where the
/// text is not JSON.
pub uninterp spec fn json_parse(text: Seq<char>) -> Option<JsonModel>;

/// The text that `serde_json` writes for a document, on one line.
pub uninterp spec fn json_text(value: JsonModel) -> Seq<char>;

/// The text that `serde_json` writes for a document, indented.
pub uninterp spec fn json_text_pretty(value: JsonModel) -> Seq<char>;

/// Turns a `serde_json::Value` into a tree of the library, variant by
/// variant; of a number it keeps what `Number::as_i64` returns. Nothing is
/// claimed of the result.
#[verifier::external_body]
fn tree_of(value: &serde_json::Value) -> JsonValue {
    match value {
        serde_json::Value::Null => JsonValue::Null,
        serde_json::Value::Bool(b) => JsonValue::Bool(*b),
        serde_json::Value::Number(n) => JsonValue::Number(n.as_i64()),
        serde_json::Value::String(s) => JsonValue::Text(s.clone()),
        serde_json::Value::Array(items) => JsonValue::Array(items.iter().map(tree_of).collect()),
        serde_json::Value::Object(members) => JsonValue::Object(
            members.iter().map(|(k, v)| (k.clone(), tree_of(v))).collect(),
        ),
    }
}

/// Turns a tree of the library into a `serde_json::Value`, variant by
/// variant; a number that the tree holds no integer for becomes what
/// `Value::from` makes of `None`. Nothing is claimed of the result.
#[verifier::external_body]
fn outside_of(value: &JsonValue) -> serde_json::Value {
    match value {
        JsonValue::Null => serde_json::Value::Null,
        JsonValue::Bool(b) => serde_json::Value::Bool(*b),
        JsonValue::Number(n) => serde_json::Value::from(*n),
        JsonValue::Text(s) => serde_json::Value::String(s.clone()),
        JsonValue::Array(items) => serde_json::Value::Array(items.iter().map(outside_of).collect()),
        JsonValue::Object(members) => serde_json::Value::Object(
            members.iter().map(|(k, v)| (k.clone(), outside_of(v))).collect(),
        ),
    }
}

/// Calls `serde_json::from_str` for a `serde_json::Value`. The contract
/// gives the outcome its name: the same text always reads as the same
/// document, or always fails.
#[verifier::external_body]
fn read_document(text: &str) -> (read: Result<JsonValue, serde_json::Error>)
    ensures
        match read {
            Ok(value) => json_parse(text@) == Some(value@),
            Err(_) => json_parse(text@) is None,
        },
{
    match serde_json::from_str::<serde_json::Value>(text) {
        Ok(value) => Ok(tree_of(&value)),
        Err(e) => Err(e),
    }
}

/// Calls `serde_json::to_string` on the document. The contract gives the
/// text its name.
#[verifier::external_body]
pub(crate) fn write_document(value: &JsonValue) -> (text: String)
    ensures
        text@ == json_text(value@),
{
    serde_json::to_string(&outside_of(value)).unwrap_or_default()
}

/// Calls `serde_json::to_string_pretty` on the document. The contract gives
/// the text its name.
#[verifier::external_body]
pub(crate) fn write_document_pretty(value: &JsonValue) -> (text: String)
    ensures
        text@ == json_text_pretty(value@),
{
    serde_json::to_string_pretty(&outside_of(value)).unwrap_or_default()
}

/// Reads a JSON text into a tree. A text that is not JSON is `Malformed`.
pub fn parse_json(text: &str) -> (parsed: Result<JsonValue, DecodeError>)
    ensures
        match json_parse(text@) {
            Some(document) => parsed matches Ok(value) && value@ == document,
            None => parsed == Err::<JsonValue, DecodeError>(DecodeError::Malformed),
        },
{
    match read_document(text) {
        Ok(value) => Ok(value),
        Err(_) => Err(DecodeError::Malformed),
    }
}

} // verus!
