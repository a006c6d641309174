//! The trusted boundary to serde_json: parsing a data blob into the library's
//! tree. Everything that interprets the tree is verified and lives elsewhere.

use vstd::prelude::*;
use crate::json::JsonTree;

verus! {

/// serde_json's dynamic JSON value, held opaquely while converting.
#[verifier::external_type_specification]
#[verifier::external_body]
pub struct ExValue(serde_json::Value);

/// The library's reading of a JSON document: `None` where the text is not
/// valid JSON, otherwise the document's tree with nulls, strings and object
/// entries kept and every other value collapsed to `Other`.
pub uninterp spec fn json_tree_of(s: Seq<char>) -> Option<JsonTree>;

/// Relies on matching serde_json::Value's variants, one arm each: rebuilds
/// the value as the library's tree, keeping nulls, strings and object entries
/// as the parsed map yields them (one entry per key, sorted by key) and
/// collapsing the rest to `Other`. Serves `parse_json_tree`.
#[verifier::external_body]
fn value_to_tree(v: &serde_json::Value) -> JsonTree {
    match v {
        serde_json::Value::Null => JsonTree::Null,
        serde_json::Value::String(s) => JsonTree::Str(s.clone()),
        serde_json::Value::Object(m) => JsonTree::Obj(
            m.iter().map(|(k, x)| (k.clone(), value_to_tree(x))).collect(),
        ),
        serde_json::Value::Bool(_) => JsonTree::Other,
        serde_json::Value::Number(_) => JsonTree::Other,
        serde_json::Value::Array(_) => JsonTree::Other,
    }
}

/// Relies on serde_json::from_str: whether a document parses, and what value
/// it parses to, depend on the document's text alone.
#[verifier::external_body]
pub fn parse_json_tree(s: &str) -> (r: Option<JsonTree>)
    ensures
        r == json_tree_of(s@),
{
    match serde_json::from_str::<serde_json::Value>(s) {
        Ok(v) => Some(value_to_tree(&v)),
        Err(_) => None,
    }
}

} // verus!
