//! Rule tables: insertion-ordered maps from a name (alias, extension or directory pattern) to a
//! core path, held in an `indexmap::IndexMap`.

use vstd::prelude::*;

use indexmap::IndexMap;

verus! {

#[verifier::external_type_specification]
#[verifier::external_body]
#[verifier::reject_recursive_types(K)]
#[verifier::reject_recursive_types(V)]
#[verifier::reject_recursive_types(S)]
pub struct ExIndexMap<K, V, S>(IndexMap<K, V, S>);

/// The entries of a rule table, in the map's order.
pub uninterp spec fn rule_entries(m: IndexMap<String, String>) -> Seq<(Seq<char>, Seq<char>)>;

/// A rule table seen as its entries, or absent.
pub open spec fn rules_view(m: Option<IndexMap<String, String>>) -> Option<Seq<(Seq<char>, Seq<char>)>> {
    match m {
        Some(t) => Some(rule_entries(t)),
        None => None,
    }
}

/// Index of the first entry with key `k`, or `-1`.
pub open spec fn key_index(es: Seq<(Seq<char>, Seq<char>)>, k: Seq<char>) -> int
    decreases es.len(),
{
    if es.len() == 0 {
        -1
    } else if es.last().0 == k && key_index(es.drop_last(), k) == -1 {
        es.len() - 1
    } else {
        key_index(es.drop_last(), k)
    }
}

/// The value stored under `k`.
pub open spec fn lookup(es: Seq<(Seq<char>, Seq<char>)>, k: Seq<char>) -> Option<Seq<char>> {
    let i = key_index(es, k);
    if i >= 0 {
        Some(es[i].1)
    } else {
        None
    }
}

/// The entries after inserting `v` under `k`: an existing key keeps its place and takes the new
/// value, a new key goes last.
pub open spec fn insert_entry(es: Seq<(Seq<char>, Seq<char>)>, k: Seq<char>, v: Seq<char>) -> Seq<(Seq<char>, Seq<char>)> {
    let i = key_index(es, k);
    if i >= 0 {
        es.update(i, (k, v))
    } else {
        es.push((k, v))
    }
}

/// Relies on `IndexMap::new`: a new map is empty.
#[verifier::external_body]
pub(crate) fn rule_map_new() -> (r: IndexMap<String, String>)
    ensures
        rule_entries(r) == Seq::<(Seq<char>, Seq<char>)>::empty(),
{
    IndexMap::new()
}

/// Relies on `IndexMap::insert`: an equal key keeps its place in the order and its value is
/// replaced; a new key is inserted last.
#[verifier::external_body]
pub(crate) fn rule_map_insert(m: &mut IndexMap<String, String>, k: String, v: String)
    ensures
        rule_entries(*final(m)) == insert_entry(rule_entries(*old(m)), k@, v@),
{
    m.insert(k, v);
}

/// Relies on `IndexMap::get`: the value stored under an equal key.
#[verifier::external_body]
pub(crate) fn rule_map_get(m: &IndexMap<String, String>, k: &str) -> (r: Option<String>)
    ensures
        r.deep_view() == lookup(rule_entries(*m), k@),
{
    m.get(k).cloned()
}

/// Relies on `IndexMap::iter`: the key-value pairs in the map's order.
#[verifier::external_body]
pub(crate) fn rule_map_entries(m: &IndexMap<String, String>) -> (r: Vec<(String, String)>)
    ensures
        r.deep_view() == rule_entries(*m),
{
    m.iter().map(|(k, v)| (k.clone(), v.clone())).collect()
}

} // verus!
