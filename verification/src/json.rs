//! What the library has from `serde_json`: decoded values come in as
//! `DecodedTree`s, and a flat record goes out as pretty-printed text.

use crate::tree::{DecodedTree, TreeView};
use serde_json::Value;
use vstd::prelude::*;

verus! {

/// `serde_json::Value`: a decoded JSON value. Nothing of its inside is
/// known here; `tree_of_json` copies it into a tree that is.
#[verifier::external_type_specification]
#[verifier::external_body]
pub struct ExJsonValue(Value);

/// What a `serde_json::Value` holds, as the tree that `tree_of_json` builds
/// from it.
pub uninterp spec fn json_tree(value: Value) -> TreeView;

/// Copies a `serde_json::Value` into a `DecodedTree`, variant by variant:
/// null, booleans and strings as they are, a number as `Int` where
/// `Number::as_i64` has it, else as `UInt` where `Number::as_u64` has it,
/// else as the bits of `Number::as_f64`; an array item by item and an
/// object member by member, in the order of `Map::iter`. The contract gives
/// the outcome its name and claims no more.
#[verifier::external_body]
pub(crate) fn tree_of_json(value: &Value) -> (tree: DecodedTree)
    ensures
        tree@ == json_tree(*value),
{
    match value {
        Value::Null => DecodedTree::Null,
        Value::Bool(b) => DecodedTree::Bool(*b),
        Value::Number(n) => match (n.as_i64(), n.as_u64()) {
            (Some(i), _) => DecodedTree::Int(i),
            (_, Some(u)) => DecodedTree::UInt(u),
            _ => DecodedTree::Float(n.as_f64().unwrap_or_default().to_bits()),
        },
        Value::String(s) => DecodedTree::Str(s.clone()),
        Value::Array(a) => DecodedTree::Array(a.iter().map(tree_of_json).collect()),
        Value::Object(m) => DecodedTree::Object(
            m.iter().map(|(k, v)| (k.clone(), tree_of_json(v))).collect(),
        ),
    }
}

/// A value of a flat record: text or a whole number.
#[derive(Debug, PartialEq, Eq)]
pub enum FieldValue {
    Text(String),
    Integer(i64),
}

/// The mathematical value of a `FieldValue`.
pub ghost enum FieldView {
    Text(Seq<char>),
    Integer(int),
}

impl View for FieldValue {
    type V = FieldView;

    open spec fn view(&self) -> FieldView {
        match self {
            FieldValue::Text(s) => FieldView::Text(s@),
            FieldValue::Integer(i) => FieldView::Integer(*i as int),
        }
    }
}

/// The views of a record's fields, in their order.
pub open spec fn record_view(fields: Seq<(String, FieldValue)>) -> Seq<(Seq<char>, FieldView)> {
    Seq::new(fields.len(), |i: int| (fields[i].0@, fields[i].1@))
}

/// The text that `serde_json::to_string_pretty` gives for the JSON object
/// whose members are the fields of `record`, inserted in their order.
pub uninterp spec fn pretty_json(record: Seq<(Seq<char>, FieldView)>) -> Seq<char>;

/// Inserts the fields in their order into a `serde_json::Map`, a text as a
/// JSON string and a whole number as a JSON number, and hands the map to
/// `serde_json::to_string_pretty`. The text depends on the fields alone;
/// the contract gives it its name and claims no more.
#[verifier::external_body]
pub(crate) fn to_json_pretty(fields: &Vec<(String, FieldValue)>) -> (text: String)
    ensures
        text@ == pretty_json(record_view(fields@)),
{
    let mut object = serde_json::Map::new();
    for (key, value) in fields.iter() {
        let member = match value {
            FieldValue::Text(s) => Value::from(s.clone()),
            FieldValue::Integer(i) => Value::from(*i),
        };
        object.insert(key.clone(), member);
    }
    serde_json::to_string_pretty(&object).unwrap_or_default()
}

} // verus!
