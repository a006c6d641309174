//! The library's reading of the loosely-typed data blob embedded in a channel
//! page: a tree keeping only what the probe inspects — nulls, strings and
//! objects — with every other value collapsed to `Other`. Navigation is an
//! explicit sequence of keyed lookups that fails closed on any missing or
//! mistyped step.

use vstd::prelude::*;
use vstd::slice::slice_subrange;
use crate::text::str_eq;

verus! {

/// A parsed data blob, as far as the probe reads it.
#[derive(Debug)]
pub enum JsonTree {
    Null,
    Str(String),
    Obj(Vec<(String, JsonTree)>),
    Other,
}

/// The value under the first entry of `entries` named `key`, if any.
pub open spec fn lookup_spec(entries: Seq<(String, JsonTree)>, key: Seq<char>) -> Option<JsonTree>
    decreases entries.len(),
{
    if entries.len() == 0 {
        None
    } else if entries[0].0@ == key {
        Some(entries[0].1)
    } else {
        lookup_spec(entries.drop_first(), key)
    }
}

/// The node reached from `t` by looking up each key of `path` in turn; `None`
/// as soon as a step is missing or the current node is not an object.
pub open spec fn node_at_spec(t: JsonTree, path: Seq<Seq<char>>) -> Option<JsonTree>
    decreases path.len(),
{
    if path.len() == 0 {
        Some(t)
    } else {
        match t {
            JsonTree::Obj(entries) => match lookup_spec(entries@, path[0]) {
                Some(child) => node_at_spec(child, path.drop_first()),
                None => None,
            },
            _ => None,
        }
    }
}

/// The key sequence a slice of keys stands for.
pub open spec fn path_view(path: Seq<&str>) -> Seq<Seq<char>> {
    path.map_values(|s: &str| s@)
}

/// Find the first entry named `key`.
pub fn lookup<'a>(entries: &'a Vec<(String, JsonTree)>, key: &str) -> (r: Option<&'a JsonTree>)
    ensures
        match r {
            Some(n) => lookup_spec(entries@, key@) == Some(*n),
            None => lookup_spec(entries@, key@) is None,
        },
{
    proof {
        assert(entries@.skip(0) =~= entries@);
    }
    let mut i: usize = 0;
    while i < entries.len()
        invariant
            i <= entries@.len(),
            lookup_spec(entries@, key@) == lookup_spec(entries@.skip(i as int), key@),
        decreases entries@.len() - i,
    {
        let pair = &entries[i];
        if str_eq(pair.0.as_str(), key) {
            proof {
                assert(entries@.skip(i as int)[0] == entries@[i as int]);
            }
            return Some(&pair.1);
        }
        proof {
            assert(entries@.skip(i as int)[0] == entries@[i as int]);
            assert(entries@.skip(i as int).drop_first() =~= entries@.skip(i + 1));
        }
        i += 1;
    }
    None
}

/// Follow `path` down from `t`, one keyed lookup per step.
pub fn node_at<'a>(t: &'a JsonTree, path: &[&str]) -> (r: Option<&'a JsonTree>)
    ensures
        match r {
            Some(n) => node_at_spec(*t, path_view(path@)) == Some(*n),
            None => node_at_spec(*t, path_view(path@)) is None,
        },
    decreases path@.len(),
{
    if path.len() == 0 {
        Some(t)
    } else {
        match t {
            JsonTree::Obj(entries) => {
                let key = path[0];
                match lookup(entries, key) {
                    Some(child) => {
                        let rest = slice_subrange(path, 1, path.len());
                        proof {
                            assert(path_view(rest@) =~= path_view(path@).drop_first());
                        }
                        node_at(child, rest)
                    },
                    None => None,
                }
            },
            _ => None,
        }
    }
}

} // verus!
