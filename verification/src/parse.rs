//! Parsing bytes into a [`JsonValue`] with `serde_json`.
//!
//! `serde_json` does the parsing; its result is an opaque tree. One wrapper
//! exposes a single level of that tree, and verified code walks it to build
//! the [`JsonValue`] with the same model.

use crate::json::{entries_model, items_model, option_model, JsonModel, JsonValue};
use vstd::prelude::*;

verus! {

/// `serde_json::Value`, carried through as an opaque value.
#[verifier::external_type_specification]
#[verifier::external_body]
pub struct ExValue(serde_json::Value);

/// The JSON value that a `serde_json::Value` holds.
pub uninterp spec fn value_model(value: serde_json::Value) -> JsonModel;

/// The JSON document that `serde_json::from_slice` reads from `bytes`, or
/// `None` where it reports an error.
pub uninterp spec fn parsed_document(bytes: Seq<u8>) -> Option<JsonModel>;

/// One level of a `serde_json::Value`: its variant and immediate contents,
/// with the children still opaque.
enum Layer<'a> {
    Null,
    Bool(bool),
    Unsigned(u64),
    OtherNumber(String),
    Text(&'a String),
    Array(&'a Vec<serde_json::Value>),
    Object(Vec<(&'a String, &'a serde_json::Value)>),
}

/// The models of a list of opaque values.
spec fn children_model(children: Seq<serde_json::Value>) -> Seq<JsonModel> {
    Seq::new(children.len(), |i: int| value_model(children[i]))
}

/// The models of a list of opaque members.
spec fn members_model(members: Seq<(&String, &serde_json::Value)>) -> Seq<(Seq<char>, JsonModel)> {
    Seq::new(members.len(), |i: int| (members[i].0@, value_model(*members[i].1)))
}

/// The JSON value that a level stands for.
spec fn layer_model(layer: Layer) -> JsonModel {
    match layer {
        Layer::Null => JsonModel::Null,
        Layer::Bool(b) => JsonModel::Bool(b),
        Layer::Unsigned(n) => JsonModel::Unsigned(n),
        Layer::OtherNumber(text) => JsonModel::OtherNumber(text@),
        Layer::Text(text) => JsonModel::String(text@),
        Layer::Array(children) => JsonModel::Array(children_model(children@)),
        Layer::Object(members) => JsonModel::Object(members_model(members@)),
    }
}

/// Opens one level of a `serde_json::Value` by matching on its variants.
///
/// Trusted: the level returned stands for the same JSON value. A number is
/// `Unsigned` exactly when `Number::as_u64` gives a value, and is otherwise
/// carried as the text that `Number`'s `Display` prints. An object's members
/// come in the order in which `Map::iter` yields them.
#[verifier::external_body]
fn open_value<'a>(value: &'a serde_json::Value) -> (layer: Layer<'a>)
    ensures
        layer_model(layer) == value_model(*value),
{
    match value {
        serde_json::Value::Null => Layer::Null,
        serde_json::Value::Bool(b) => Layer::Bool(*b),
        serde_json::Value::Number(n) => match n.as_u64() {
            Some(u) => Layer::Unsigned(u),
            None => Layer::OtherNumber(n.to_string()),
        },
        serde_json::Value::String(text) => Layer::Text(text),
        serde_json::Value::Array(children) => Layer::Array(children),
        serde_json::Value::Object(map) => Layer::Object(map.iter().collect()),
    }
}

/// Calls `serde_json::from_slice` for a `serde_json::Value`.
///
/// Trusted: the result is a function of the bytes alone, named
/// [`parsed_document`]; an error is reported as `None`.
#[verifier::external_body]
fn parse_value(bytes: &[u8]) -> (parsed: Option<serde_json::Value>)
    ensures
        match parsed {
            Some(value) => parsed_document(bytes@) == Some(value_model(value)),
            None => parsed_document(bytes@) is None,
        },
{
    serde_json::from_slice::<serde_json::Value>(bytes).ok()
}

/// Rebuilds an opaque value as a [`JsonValue`].
fn convert(value: &serde_json::Value) -> (json: JsonValue)
    ensures
        json@ == value_model(*value),
    decreases value_model(*value),
{
    match open_value(value) {
        Layer::Null => JsonValue::Null,
        Layer::Bool(b) => JsonValue::Bool(b),
        Layer::Unsigned(n) => JsonValue::Unsigned(n),
        Layer::OtherNumber(text) => JsonValue::OtherNumber(text),
        Layer::Text(text) => JsonValue::String(text.clone()),
        Layer::Array(children) => {
            let ghost models = children_model(children@);
            let mut items: Vec<JsonValue> = Vec::new();
            let mut i: usize = 0;
            while i < children.len()
                invariant
                    i <= children.len(),
                    items.len() == i,
                    models == children_model(children@),
                    value_model(*value) == JsonModel::Array(models),
                    forall|j: int| 0 <= j < i ==> items@[j]@ == models[j],
                decreases children.len() - i,
            {
                proof {
                    let whole = value_model(*value);
                    assert(models[i as int] == value_model(children@[i as int]));
                    assert(decreases_to!(whole => whole->Array_0));
                    assert(decreases_to!(models => models[i as int]));
                }
                let item = convert(&children[i]);
                items.push(item);
                i += 1;
            }
            assert(items_model(items@) =~= models);
            JsonValue::Array(items)
        },
        Layer::Object(members) => {
            let ghost models = members_model(members@);
            let mut entries: Vec<(String, JsonValue)> = Vec::new();
            let mut i: usize = 0;
            while i < members.len()
                invariant
                    i <= members.len(),
                    entries.len() == i,
                    models == members_model(members@),
                    value_model(*value) == JsonModel::Object(models),
                    forall|j: int|
                        0 <= j < i ==> (entries@[j].0@, entries@[j].1@) == #[trigger] models[j],
                decreases members.len() - i,
            {
                proof {
                    let whole = value_model(*value);
                    assert(models[i as int].1 == value_model(*members@[i as int].1));
                    assert(decreases_to!(whole => whole->Object_0));
                    assert(decreases_to!(models => models[i as int]));
                    assert(decreases_to!(models[i as int] => models[i as int].1));
                }
                let key = members[i].0.clone();
                let item = convert(members[i].1);
                entries.push((key, item));
                i += 1;
            }
            assert(entries_model(entries@) =~= models);
            JsonValue::Object(entries)
        },
    }
}

/// Parses a byte string as one JSON document.
///
/// The result is `None` exactly when `serde_json` rejects the bytes.
pub fn parse_json(bytes: &[u8]) -> (json: Option<JsonValue>)
    ensures
        option_model(json) == parsed_document(bytes@),
{
    match parse_value(bytes) {
        Some(value) => Some(convert(&value)),
        None => None,
    }
}

} // verus!
