//! Reading the list of repositories that the user has starred already.
//!
//! The hosting service answers with one JSON document: an array of objects,
//! each of which carries the repository's identifier as the string member
//! `full_name`. Anything else is refused, and the refusal says where the
//! document first departs from that shape. Only what the service sent is
//! read: further pages of a long list are not asked for.

use vstd::prelude::*;
use crate::error::{ShapeFault, StarError};
use crate::text::texts;
use crate::json::{json_member, json_parse, json_tree, member, parse_value, JsonTree};

verus! {

/// The identifier that an element of the starred list carries, if it has one.
pub open spec fn full_name(item: JsonTree) -> Option<Seq<char>> {
    match json_member(item, "full_name"@) {
        JsonTree::Text(name) => Some(name),
        _ => None,
    }
}

/// `index` is the place of the first element of `items` without an identifier.
pub open spec fn first_unnamed(items: Seq<JsonTree>, index: int) -> bool {
    &&& 0 <= index < items.len()
    &&& full_name(items[index]) is None
    &&& forall|j: int| 0 <= j < index ==> full_name(#[trigger] items[j]) is Some
}

/// `names` are the identifiers of `items`, in order, none missing.
pub open spec fn names_of(items: Seq<JsonTree>, names: Seq<Seq<char>>) -> bool {
    &&& names.len() == items.len()
    &&& forall|i: int| 0 <= i < items.len() ==> full_name(#[trigger] items[i]) == Some(names[i])
}

/// What reading the starred list off a document must give.
///
/// A document that is an array whose elements all carry an identifier gives
/// those identifiers in order. Any other document gives the one fault that
/// describes it: not an array, or the place of the first element without an
/// identifier.
pub open spec fn reads_as(tree: JsonTree, outcome: Result<Seq<Seq<char>>, StarError>) -> bool {
    match outcome {
        Ok(names) => tree is Array && names_of(tree->Array_0, names),
        Err(StarError::ResponseShape(ShapeFault::NotArray)) => !(tree is Array),
        Err(StarError::ResponseShape(ShapeFault::MissingName { index })) => tree is Array
            && first_unnamed(tree->Array_0, index as int),
        Err(_) => false,
    }
}

/// A document reads in one way only: no two outcomes describe it.
pub proof fn lemma_one_reading(
    tree: JsonTree,
    first: Result<Seq<Seq<char>>, StarError>,
    second: Result<Seq<Seq<char>>, StarError>,
)
    requires
        reads_as(tree, first),
        reads_as(tree, second),
    ensures
        first == second,
{
    match (first, second) {
        (Ok(a), Ok(b)) => {
            let items = tree->Array_0;
            assert forall|i: int| 0 <= i < a.len() implies a[i] == b[i] by {
                assert(full_name(items[i]) == Some(a[i]));
                assert(full_name(items[i]) == Some(b[i]));
            }
            assert(a =~= b);
        },
        (Ok(a), Err(StarError::ResponseShape(ShapeFault::MissingName { index }))) => {
            assert(full_name(tree->Array_0[index as int]) == Some(a[index as int]));
        },
        (Err(StarError::ResponseShape(ShapeFault::MissingName { index })), Ok(b)) => {
            assert(full_name(tree->Array_0[index as int]) == Some(b[index as int]));
        },
        (
            Err(StarError::ResponseShape(ShapeFault::MissingName { index: i })),
            Err(StarError::ResponseShape(ShapeFault::MissingName { index: j })),
        ) => {
            let items = tree->Array_0;
            if i < j {
                assert(full_name(items[i as int]) is Some);
            }
            if j < i {
                assert(full_name(items[j as int]) is Some);
            }
        },
        _ => {},
    }
}

/// The contents of an outcome, with each name as a sequence of characters.
pub open spec fn outcome_view(r: Result<Vec<String>, StarError>) -> Result<
    Seq<Seq<char>>,
    StarError,
> {
    match r {
        Ok(names) => Ok(texts(names@)),
        Err(e) => Err(e),
    }
}

/// Reads the starred list off a document that has been parsed already.
pub fn starred_names(doc: &serde_json::Value) -> (r: Result<Vec<String>, StarError>)
    ensures
        reads_as(json_tree(*doc), outcome_view(r)),
{
    let items = match doc.as_array() {
        Some(items) => items,
        None => {
            return Err(StarError::ResponseShape(ShapeFault::NotArray));
        },
    };
    let ghost trees = json_tree(*doc)->Array_0;
    let mut names: Vec<String> = Vec::new();
    let mut i: usize = 0;
    while i < items.len()
        invariant
            i <= items.len(),
            json_tree(*doc) == JsonTree::Array(trees),
            trees.len() == items.len(),
            forall|k: int| 0 <= k < items.len() ==> trees[k] == json_tree(#[trigger] items[k]),
            names.len() == i,
            forall|k: int| 0 <= k < i ==> full_name(#[trigger] trees[k]) == Some(names[k]@),
        decreases items.len() - i,
    {
        match member(&items[i], "full_name").as_str() {
            Some(name) => {
                names.push(name.to_owned());
            },
            None => {
                assert(trees[i as int] == json_tree(items[i as int]));
                assert(first_unnamed(trees, i as int));
                return Err(StarError::ResponseShape(ShapeFault::MissingName { index: i }));
            },
        }
        i += 1;
    }
    proof {
        assert(names_of(trees, texts(names@)));
    }
    Ok(names)
}

/// Reads the starred list off the body of the service's answer.
///
/// The whole body is taken as one JSON document. A body that is no
/// well-formed document is refused as malformed; a well-formed one is read
/// as [`starred_names`] reads it.
pub fn deserialize(info: &str) -> (r: Result<Vec<String>, StarError>)
    ensures
        match json_parse(info@) {
            Some(tree) => reads_as(tree, outcome_view(r)),
            None => r == Err::<Vec<String>, StarError>(
                StarError::ResponseShape(ShapeFault::Malformed),
            ),
        },
{
    match parse_value(info) {
        Ok(doc) => starred_names(&doc),
        Err(_) => Err(StarError::ResponseShape(ShapeFault::Malformed)),
    }
}

} // verus!
