//! Trusted boundary around `indexmap::IndexMap`, the ordered map that backs
//! the download ledger.
//!
//! The map's abstract contents are named by [`ledger_entries`]: the entries in
//! insertion order, each reduced to its `(id, url, save_path)` character
//! sequences. Every wrapper below states, over that name, what the crate's
//! documentation promises of the method it calls; nothing else in this crate
//! touches the map directly.

use vstd::prelude::*;

use indexmap::IndexMap;
use std::collections::hash_map::RandomState;

use crate::download_manager::ImageDownload;

verus! {

#[verifier::external_type_specification]
#[verifier::external_body]
#[verifier::reject_recursive_types(K)]
#[verifier::reject_recursive_types(V)]
#[verifier::reject_recursive_types(S)]
pub struct ExIndexMap<K, V, S>(IndexMap<K, V, S>);

/// The ledger's entries in insertion order, each as `(id, url, save_path)`.
pub uninterp spec fn ledger_entries(m: &IndexMap<String, ImageDownload, RandomState>) -> Seq<
    (Seq<char>, Seq<char>, Seq<char>),
>;

/// No two entries share an id. True of every `IndexMap`, whose keys are
/// unique, and restated by each wrapper of a mutating method.
pub open spec fn entry_keys_distinct(es: Seq<(Seq<char>, Seq<char>, Seq<char>)>) -> bool {
    forall|i: int, j: int| 0 <= i < j < es.len() ==> es[i].0 != es[j].0
}

/// Some entry carries this id.
pub open spec fn has_key(es: Seq<(Seq<char>, Seq<char>, Seq<char>)>, k: Seq<char>) -> bool {
    exists|i: int| 0 <= i < es.len() && es[i].0 == k
}

/// The position of the entry carrying this id.
pub open spec fn key_index(es: Seq<(Seq<char>, Seq<char>, Seq<char>)>, k: Seq<char>) -> int {
    choose|i: int| 0 <= i < es.len() && es[i].0 == k
}

/// Relies on `IndexMap::new`: the new map is empty.
#[verifier::external_body]
pub(crate) fn ledger_new() -> (m: IndexMap<String, ImageDownload, RandomState>)
    ensures
        ledger_entries(&m) == Seq::<(Seq<char>, Seq<char>, Seq<char>)>::empty(),
{
    IndexMap::new()
}

/// Relies on `IndexMap::insert`, keyed by the entry's own id: a key already in
/// the map keeps its place in the order and takes the new value; a new key is
/// appended last; keys stay unique.
#[verifier::external_body]
pub(crate) fn ledger_insert(m: &mut IndexMap<String, ImageDownload, RandomState>, entry: ImageDownload)
    ensures
        entry_keys_distinct(ledger_entries(final(m))),
        has_key(ledger_entries(old(m)), entry.id@) ==> ledger_entries(final(m)) == ledger_entries(
            old(m),
        ).update(key_index(ledger_entries(old(m)), entry.id@), entry@),
        !has_key(ledger_entries(old(m)), entry.id@) ==> ledger_entries(final(m)) == ledger_entries(
            old(m),
        ).push(entry@),
{
    m.insert(entry.id.clone(), entry);
}

/// Relies on `IndexMap::shift_remove`: the entry carrying the key leaves the
/// map and the entries after it close the gap, keeping their relative order;
/// an absent key changes nothing and returns `None`.
#[verifier::external_body]
pub(crate) fn ledger_remove(m: &mut IndexMap<String, ImageDownload, RandomState>, id: &str) -> (r:
    Option<ImageDownload>)
    ensures
        entry_keys_distinct(ledger_entries(final(m))),
        r is Some <==> has_key(ledger_entries(old(m)), id@),
        has_key(ledger_entries(old(m)), id@) ==> ledger_entries(final(m)) == ledger_entries(
            old(m),
        ).remove(key_index(ledger_entries(old(m)), id@)),
        !has_key(ledger_entries(old(m)), id@) ==> ledger_entries(final(m)) == ledger_entries(
            old(m),
        ),
{
    m.shift_remove(id)
}

/// Relies on `IndexMap::len`: the number of entries.
#[verifier::external_body]
pub(crate) fn ledger_len(m: &IndexMap<String, ImageDownload, RandomState>) -> (n: usize)
    ensures
        n == ledger_entries(m).len(),
{
    m.len()
}

/// Relies on `IndexMap::iter`: entries are yielded in their order, so the
/// first `limit` of them are the ledger's prefix.
#[verifier::external_body]
pub(crate) fn ledger_prefix(m: &IndexMap<String, ImageDownload, RandomState>, limit: usize) -> (r:
    Vec<ImageDownload>)
    ensures
        r@.len() == vstd::math::min(limit as int, ledger_entries(m).len() as int),
        forall|i: int| 0 <= i < r@.len() ==> r@[i]@ == ledger_entries(m)[i],
{
    m.iter().take(limit).map(|(_, d)| d.clone()).collect()
}

} // verus!
