//! The JSON values of `serde_json`, as far as the store reads and writes
//! them. Nothing in this file is proved. A `serde_json::Value` is opaque to
//! the verifier; `json_tree` names what it holds, and each function below
//! makes one call into `serde_json` and states, over that name, what the
//! crate's source shows of the call.

use vstd::prelude::*;

verus! {

/// `serde_json::Value`, a JSON value. Nothing is known of one but what the
/// functions below say of its tree.
#[verifier::external_type_specification]
#[verifier::external_body]
pub struct ExValue(serde_json::Value);

/// `serde_json::Number`, the number of a JSON value. It is carried inside a
/// tree and never read.
#[verifier::external_type_specification]
#[verifier::external_body]
pub struct ExNumber(serde_json::Number);

/// `serde_json::Error`, what the parser and the serializer fail with. It is
/// told apart from success and never read.
#[verifier::external_type_specification]
#[verifier::external_body]
pub struct ExError(serde_json::Error);

/// What a `serde_json::Value` holds: one of the six kinds of JSON value. An
/// object maps each of its keys to one value and keeps no other order of them
/// (the crate keeps the keys of an object sorted).
pub enum JsonTree {
    Null,
    Bool(bool),
    Number(serde_json::Number),
    Text(Seq<char>),
    Array(Seq<JsonTree>),
    Object(Map<Seq<char>, JsonTree>),
}

impl JsonTree {
    /// The value under `key`, where this is an object that has the key.
    pub open spec fn member(self, key: Seq<char>) -> Option<JsonTree> {
        match self {
            JsonTree::Object(fields) => if fields.dom().contains(key) {
                Some(fields[key])
            } else {
                None
            },
            _ => None,
        }
    }
}

/// The tree that a `serde_json::Value` holds. No function computes it: the
/// functions below say which tree their arguments and results hold.
pub uninterp spec fn json_tree(value: serde_json::Value) -> JsonTree;

/// The result of `serde_json::from_str::<Value>` on a text: the tree of the
/// value it returns, or `None` where it returns an error.
pub uninterp spec fn parsed_json(text: Seq<char>) -> Option<JsonTree>;

/// The result of `serde_json::to_string_pretty` on a value that holds the
/// tree: the text it returns, or `None` where it returns an error.
pub uninterp spec fn pretty_json(tree: JsonTree) -> Option<Seq<char>>;

/// The trees of a sequence of values, in order.
pub open spec fn json_trees(values: Seq<serde_json::Value>) -> Seq<JsonTree> {
    Seq::new(values.len(), |i: int| json_tree(values[i]))
}

/// `serde_json::from_str::<Value>`: parses a text as one JSON value. The
/// contract gives the outcome its name, `parsed_json`, and says nothing of
/// which texts are JSON.
#[verifier::external_body]
pub(crate) fn parse_value(text: &str) -> (r: Result<serde_json::Value, serde_json::Error>)
    ensures
        match r {
            Ok(value) => parsed_json(text@) == Some(json_tree(value)),
            Err(_) => parsed_json(text@) is None,
        },
{
    serde_json::from_str::<serde_json::Value>(text)
}

/// `serde_json::to_string_pretty` on a `Value`: the indented text of the
/// value. The contract gives the outcome its name, `pretty_json`, and says
/// nothing of how the text looks nor that there is one.
#[verifier::external_body]
pub(crate) fn pretty_text(value: &serde_json::Value) -> (r: Result<String, serde_json::Error>)
    ensures
        match r {
            Ok(text) => pretty_json(json_tree(*value)) == Some(text@),
            Err(_) => pretty_json(json_tree(*value)) is None,
        },
{
    serde_json::to_string_pretty(value)
}

/// What a lookup found, as a tree.
pub open spec fn found_tree(found: Option<&serde_json::Value>) -> Option<JsonTree> {
    match found {
        Some(value) => Some(json_tree(*value)),
        None => None,
    }
}

/// `Value::get` with a string key: the value under the key where the value is
/// an object that has the key, else `None`.
#[verifier::external_body]
pub(crate) fn value_member<'a>(value: &'a serde_json::Value, key: &str) -> (r: Option<
    &'a serde_json::Value,
>)
    ensures
        found_tree(r) == json_tree(*value).member(key@),
{
    value.get(key)
}

/// `Value::as_array`: the elements where the value is an array, else `None`.
#[verifier::external_body]
pub(crate) fn value_elements(value: &serde_json::Value) -> (r: Option<&Vec<serde_json::Value>>)
    ensures
        match r {
            Some(items) => json_tree(*value) == JsonTree::Array(json_trees(items@)),
            None => !(json_tree(*value) is Array),
        },
{
    value.as_array()
}

/// `Value::as_str`: the text where the value is a string, else `None`.
#[verifier::external_body]
pub(crate) fn value_text(value: &serde_json::Value) -> (r: Option<&str>)
    ensures
        match r {
            Some(text) => json_tree(*value) == JsonTree::Text(text@),
            None => !(json_tree(*value) is Text),
        },
{
    value.as_str()
}

/// The variant `Value::String`: the string value with the given text.
#[verifier::external_body]
pub(crate) fn text_value(text: String) -> (r: serde_json::Value)
    ensures
        json_tree(r) == JsonTree::Text(text@),
{
    serde_json::Value::String(text)
}

/// The variant `Value::Bool`: the boolean value.
#[verifier::external_body]
pub(crate) fn bool_value(flag: bool) -> (r: serde_json::Value)
    ensures
        json_tree(r) == JsonTree::Bool(flag),
{
    serde_json::Value::Bool(flag)
}

/// The variant `Value::Array`: the array with the given elements, in order.
#[verifier::external_body]
pub(crate) fn array_value(items: Vec<serde_json::Value>) -> (r: serde_json::Value)
    ensures
        json_tree(r) == JsonTree::Array(json_trees(items@)),
{
    serde_json::Value::Array(items)
}

/// The fields of the object made of the first `count` of the given pairs.
pub open spec fn fields_tree(fields: Seq<(String, serde_json::Value)>, count: nat) -> Map<
    Seq<char>,
    JsonTree,
>
    decreases count,
{
    if count == 0 {
        Map::empty()
    } else {
        let last = fields[count - 1];
        fields_tree(fields, (count - 1) as nat).insert(last.0@, json_tree(last.1))
    }
}

/// `Value::from_iter` on pairs of a key and a value: the object that maps each
/// key to its value. The keys differ from each other, so that no pair takes
/// the place of another.
#[verifier::external_body]
pub(crate) fn object_value(fields: Vec<(String, serde_json::Value)>) -> (r: serde_json::Value)
    requires
        forall|i: int, j: int| 0 <= i < j < fields@.len() ==> fields@[i].0@ != fields@[j].0@,
    ensures
        json_tree(r) == JsonTree::Object(fields_tree(fields@, fields@.len())),
{
    serde_json::Value::from_iter(fields)
}

} // verus!
