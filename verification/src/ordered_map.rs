//! Insertion-ordered string maps (`indexmap::IndexMap<String, String>`),
//! used for the language table and the engine parameters.

use vstd::prelude::*;
use crate::json::{entries_get, entries_set, find_key};

verus! {

#[verifier::external_type_specification]
#[verifier::external_body]
#[verifier::reject_recursive_types(K)]
#[verifier::reject_recursive_types(V)]
#[verifier::reject_recursive_types(S)]
pub struct ExIndexMap<K, V, S>(indexmap::IndexMap<K, V, S>);

/// The entries of a string map, in their order.
pub uninterp spec fn string_map_entries(m: indexmap::IndexMap<String, String>) -> Seq<(Seq<char>, Seq<char>)>;

/// `IndexMap::new`: an empty map.
#[verifier::external_body]
pub(crate) fn map_new() -> (m: indexmap::IndexMap<String, String>)
    ensures
        string_map_entries(m) == Seq::<(Seq<char>, Seq<char>)>::empty(),
{
    indexmap::IndexMap::new()
}

/// `IndexMap::len`: the number of entries.
#[verifier::external_body]
pub(crate) fn map_len(m: &indexmap::IndexMap<String, String>) -> (n: usize)
    ensures
        n == string_map_entries(*m).len(),
{
    m.len()
}

/// `IndexMap::get_index`: the entry at a position, copied out.
#[verifier::external_body]
pub(crate) fn map_get_index(m: &indexmap::IndexMap<String, String>, i: usize) -> (r: Option<(String, String)>)
    ensures
        i < string_map_entries(*m).len() ==> r is Some && (r->0).0@ == string_map_entries(*m)[i as int].0
            && (r->0).1@ == string_map_entries(*m)[i as int].1,
        i >= string_map_entries(*m).len() ==> r is None,
{
    m.get_index(i).map(|(k, v)| (k.clone(), v.clone()))
}

/// `IndexMap::get_index_of`: the position of a key.
#[verifier::external_body]
pub(crate) fn map_get_index_of(m: &indexmap::IndexMap<String, String>, key: &str) -> (r: Option<usize>)
    ensures
        match r {
            Some(i) => find_key(string_map_entries(*m), key@) == Some(i as int),
            None => find_key(string_map_entries(*m), key@) is None,
        },
{
    m.get_index_of(key)
}

/// `IndexMap::get`: the value stored under a key, copied out.
#[verifier::external_body]
pub(crate) fn map_get(m: &indexmap::IndexMap<String, String>, key: &str) -> (r: Option<String>)
    ensures
        match r {
            Some(v) => entries_get(string_map_entries(*m), key@) == Some(v@),
            None => entries_get(string_map_entries(*m), key@) is None,
        },
{
    m.get(key).cloned()
}

/// `IndexMap::insert`: an existing key keeps its position and takes the new
/// value; a new key goes last.
#[verifier::external_body]
pub(crate) fn map_insert(m: &mut indexmap::IndexMap<String, String>, key: String, value: String)
    ensures
        string_map_entries(*final(m)) == entries_set(string_map_entries(*old(m)), key@, value@),
{
    m.insert(key, value);
}

} // verus!
