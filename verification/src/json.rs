//! The JSON reader this crate relies on, and what is taken on trust about it.
//!
//! Documents are read by `serde_json`. Its values cannot be inspected by the
//! verifier, so contracts speak of a [`JsonTree`], the mathematical picture of
//! a document, and each call into `serde_json` is given a contract over that
//! picture. None of the contracts in this file is proved: they restate what
//! the `serde_json` sources show.

use vstd::prelude::*;

verus! {

/// A JSON document as contracts see it.
///
/// Numbers are not told apart: nothing in this crate reads one.
pub enum JsonTree {
    Null,
    Bool(bool),
    Number,
    Text(Seq<char>),
    Array(Seq<JsonTree>),
    Object(Map<Seq<char>, JsonTree>),
}

/// `serde_json::Value`, carried as it is: the verifier sees nothing inside.
#[verifier::external_type_specification]
#[verifier::external_body]
pub struct ExValue(serde_json::Value);

/// `serde_json::Error`, carried as it is.
#[verifier::external_type_specification]
#[verifier::external_body]
pub struct ExJsonError(serde_json::Error);

/// The document that a `serde_json::Value` holds.
pub uninterp spec fn json_tree(value: serde_json::Value) -> JsonTree;

/// The document that `serde_json::from_str` reads from `text`, if it accepts
/// `text` at all.
pub uninterp spec fn json_parse(text: Seq<char>) -> Option<JsonTree>;

/// The documents held by a run of values, one by one.
pub open spec fn json_trees(values: Seq<serde_json::Value>) -> Seq<JsonTree> {
    Seq::new(values.len(), |i: int| json_tree(values[i]))
}

/// What indexing a document by a key yields: the member under that key where
/// the document is an object that has one, and `null` everywhere else.
pub open spec fn json_member(tree: JsonTree, key: Seq<char>) -> JsonTree {
    match tree {
        JsonTree::Object(members) => if members.contains_key(key) {
            members[key]
        } else {
            JsonTree::Null
        },
        _ => JsonTree::Null,
    }
}

/// `serde_json::from_str`, read at type `Value`.
///
/// Claimed: the outcome depends on the text alone; when the text is accepted,
/// the value returned holds the document that [`json_parse`] names, and when
/// it is not, an error is returned.
#[verifier::external_body]
pub(crate) fn parse_value(text: &str) -> (r: Result<serde_json::Value, serde_json::Error>)
    ensures
        match r {
            Ok(value) => json_parse(text@) == Some(json_tree(value)),
            Err(_) => json_parse(text@) is None,
        },
{
    serde_json::from_str::<serde_json::Value>(text)
}

/// `serde_json::Value::as_array`.
///
/// Claimed: an array hands out its elements, in order; any other value
/// yields `None`.
pub assume_specification<'a>[ serde_json::Value::as_array ](
    value: &'a serde_json::Value,
) -> (r: Option<&'a Vec<serde_json::Value>>)
    ensures
        match r {
            Some(items) => json_tree(*value) == JsonTree::Array(json_trees(items@)),
            None => !(json_tree(*value) is Array),
        },
;

/// `serde_json::Value::as_str`.
///
/// Claimed: a string value hands out its text; any other value yields `None`.
pub assume_specification<'a>[ serde_json::Value::as_str ](value: &'a serde_json::Value) -> (r:
    Option<&'a str>)
    ensures
        match r {
            Some(text) => json_tree(*value) == JsonTree::Text(text@),
            None => !(json_tree(*value) is Text),
        },
;

/// Indexing a `serde_json::Value` by a string key (`value[key]`).
///
/// Claimed: the result is the member under `key` where `value` is an object
/// that has one, and a `null` value otherwise; the call never panics.
#[verifier::external_body]
pub(crate) fn member<'a>(value: &'a serde_json::Value, key: &str) -> (r: &'a serde_json::Value)
    ensures
        json_tree(*r) == json_member(json_tree(*value), key@),
{
    &value[key]
}

} // verus!
