//! JSON documents as plain values.
//!
//! The crate reads JSON only through [`JsonValue`], a tree of plain values
//! whose mathematical meaning is its [`JsonModel`].

use vstd::prelude::*;

verus! {

/// A JSON value held as plain data.
///
/// An object keeps its members as a list of pairs; a lookup takes the first
/// pair with the key (see [`member`]).
#[derive(Debug, PartialEq, Eq)]
pub enum JsonValue {
    /// `null`.
    Null,
    /// `true` or `false`.
    Bool(bool),
    /// A number that is a non-negative integer below 2^64.
    Unsigned(u64),
    /// Any other number (negative, fractional or larger), as its JSON text.
    OtherNumber(String),
    /// A string.
    String(String),
    /// An array.
    Array(Vec<JsonValue>),
    /// An object.
    Object(Vec<(String, JsonValue)>),
}

/// The mathematical value of a [`JsonValue`].
pub enum JsonModel {
    Null,
    Bool(bool),
    Unsigned(u64),
    OtherNumber(Seq<char>),
    String(Seq<char>),
    Array(Seq<JsonModel>),
    Object(Seq<(Seq<char>, JsonModel)>),
}

/// The models of the items of an array, in order.
pub open spec fn items_model(items: Seq<JsonValue>) -> Seq<JsonModel>
    decreases items,
{
    Seq::new(
        items.len(),
        |i: int|
            if 0 <= i < items.len() {
                items[i]@
            } else {
                JsonModel::Null
            },
    )
}

/// The models of the members of an object, in order.
pub open spec fn entries_model(entries: Seq<(String, JsonValue)>) -> Seq<(Seq<char>, JsonModel)>
    decreases entries,
{
    Seq::new(
        entries.len(),
        |i: int|
            if 0 <= i < entries.len() {
                (entries[i].0@, entries[i].1@)
            } else {
                (Seq::empty(), JsonModel::Null)
            },
    )
}

impl View for JsonValue {
    type V = JsonModel;

    open spec fn view(&self) -> JsonModel
        decreases self,
    {
        match self {
            JsonValue::Null => JsonModel::Null,
            JsonValue::Bool(b) => JsonModel::Bool(*b),
            JsonValue::Unsigned(n) => JsonModel::Unsigned(*n),
            JsonValue::OtherNumber(text) => JsonModel::OtherNumber(text@),
            JsonValue::String(text) => JsonModel::String(text@),
            JsonValue::Array(items) => JsonModel::Array(items_model(items@)),
            JsonValue::Object(entries) => JsonModel::Object(entries_model(entries@)),
        }
    }
}

/// The value stored under `key` in an object's members: that of the first
/// member with this key, or `None` when no member has it.
pub open spec fn member(entries: Seq<(Seq<char>, JsonModel)>, key: Seq<char>) -> Option<JsonModel>
    decreases entries.len(),
{
    if entries.len() == 0 {
        None
    } else if entries[0].0 == key {
        Some(entries[0].1)
    } else {
        member(entries.drop_first(), key)
    }
}

/// The model of an optional value.
pub open spec fn option_model(value: Option<JsonValue>) -> Option<JsonModel> {
    match value {
        Some(v) => Some(v@),
        None => None,
    }
}

/// Looks `key` up among the members of an object.
pub fn find<'a>(entries: &'a Vec<(String, JsonValue)>, key: &String) -> (found: Option<
    &'a JsonValue,
>)
    ensures
        match found {
            Some(v) => member(entries_model(entries@), key@) == Some(v@),
            None => member(entries_model(entries@), key@) is None,
        },
{
    let ghost all = entries_model(entries@);
    let mut i: usize = 0;
    assert(all.skip(0) =~= all);
    while i < entries.len()
        invariant
            i <= entries.len(),
            all == entries_model(entries@),
            member(all, key@) == member(all.skip(i as int), key@),
        decreases entries.len() - i,
    {
        if entries[i].0 == *key {
            return Some(&entries[i].1);
        }
        proof {
            assert(all.skip(i as int).drop_first() =~= all.skip(i + 1));
        }
        i += 1;
    }
    None
}

/// Copies a list of JSON values.
pub fn clone_items(items: &Vec<JsonValue>) -> (copy: Vec<JsonValue>)
    ensures
        items_model(copy@) == items_model(items@),
    decreases items,
{
    let mut copy: Vec<JsonValue> = Vec::new();
    let mut i: usize = 0;
    while i < items.len()
        invariant
            i <= items.len(),
            copy.len() == i,
            forall|j: int| 0 <= j < i ==> copy@[j]@ == items@[j]@,
        decreases items.len() - i,
    {
        let item = items[i].clone();
        copy.push(item);
        i += 1;
    }
    assert(items_model(copy@) =~= items_model(items@));
    copy
}

/// Copies the members of a JSON object.
pub fn clone_entries(entries: &Vec<(String, JsonValue)>) -> (copy: Vec<(String, JsonValue)>)
    ensures
        entries_model(copy@) == entries_model(entries@),
    decreases entries,
{
    let mut copy: Vec<(String, JsonValue)> = Vec::new();
    let mut i: usize = 0;
    while i < entries.len()
        invariant
            i <= entries.len(),
            copy.len() == i,
            forall|j: int|
                0 <= j < i ==> copy@[j].0@ == entries@[j].0@ && copy@[j].1@ == entries@[j].1@,
        decreases entries.len() - i,
    {
        let key = entries[i].0.clone();
        let value = entries[i].1.clone();
        copy.push((key, value));
        i += 1;
    }
    assert(entries_model(copy@) =~= entries_model(entries@));
    copy
}

impl Clone for JsonValue {
    /// A deep copy with the same model.
    fn clone(&self) -> (copy: Self)
        ensures
            copy@ == self@,
        decreases self,
    {
        match self {
            JsonValue::Null => JsonValue::Null,
            JsonValue::Bool(b) => JsonValue::Bool(*b),
            JsonValue::Unsigned(n) => JsonValue::Unsigned(*n),
            JsonValue::OtherNumber(text) => JsonValue::OtherNumber(text.clone()),
            JsonValue::String(text) => JsonValue::String(text.clone()),
            JsonValue::Array(items) => JsonValue::Array(clone_items(items)),
            JsonValue::Object(entries) => JsonValue::Object(clone_entries(entries)),
        }
    }
}

} // verus!
