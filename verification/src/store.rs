//! In-memory flag storage.
use std::collections::hash_map::RandomState;
use dashmap::DashMap;
use vstd::prelude::*;

use crate::error::FlagError;
use crate::flag::{Flag, FlagName, FlagView};

verus! {

/// `dashmap::DashMap`, declared so that it can stand in fields and signatures.
#[verifier::external_type_specification]
#[verifier::external_body]
#[verifier::reject_recursive_types(K)]
#[verifier::reject_recursive_types(V)]
#[verifier::reject_recursive_types(S)]
pub struct ExDashMap<K, V, S>(DashMap<K, V, S>);

/// The entries of a `DashMap<String, Flag>`: each key's characters mapped to
/// the content of the flag stored under it.
pub uninterp spec fn table_entries(m: DashMap<String, Flag, RandomState>) -> Map<Seq<char>, FlagView>;

/// The table with no entries.
pub open spec fn empty_table() -> Map<Seq<char>, FlagView> {
    Map::empty()
}

/// Wraps `DashMap::new`: claims that the new map has no entry.
#[verifier::external_body]
fn table_new() -> (table: DashMap<String, Flag, RandomState>)
    ensures
        table_entries(table) == empty_table(),
{
    DashMap::new()
}

} // verus!

verus! {

/// Wraps `DashMap::get` and clones the value it refers to: claims that a
/// flag comes back exactly when `key` is stored, and that it is the stored one.
#[verifier::external_body]
fn table_get(table: &DashMap<String, Flag, RandomState>, key: &str) -> (r: Option<Flag>)
    ensures
        r is Some <==> table_entries(*table).contains_key(key@),
        r matches Some(f) ==> f@ == table_entries(*table)[key@],
{
    match table.get(key) {
        Some(entry) => Some(entry.value().clone()),
        None => None,
    }
}

/// Wraps `DashMap::insert`: claims that afterwards `key` maps to `value` and
/// every other entry is unchanged, and that the replaced value, if any, is
/// returned.
#[verifier::external_body]
fn table_insert(table: &mut DashMap<String, Flag, RandomState>, key: String, value: Flag) -> (r:
    Option<Flag>)
    ensures
        table_entries(*final(table)) == table_entries(*old(table)).insert(key@, value@),
        r is Some <==> table_entries(*old(table)).contains_key(key@),
        r matches Some(f) ==> f@ == table_entries(*old(table))[key@],
{
    table.insert(key, value)
}

/// Wraps `DashMap::remove`: claims that afterwards `key` is absent and every
/// other entry is unchanged, and that the removed value, if any, is returned.
#[verifier::external_body]
fn table_remove(table: &mut DashMap<String, Flag, RandomState>, key: &str) -> (r: Option<Flag>)
    ensures
        table_entries(*final(table)) == table_entries(*old(table)).remove(key@),
        r is Some <==> table_entries(*old(table)).contains_key(key@),
        r matches Some(f) ==> f@ == table_entries(*old(table))[key@],
{
    match table.remove(key) {
        Some((_key, value)) => Some(value),
        None => None,
    }
}

/// Wraps `DashMap::len`: claims that the result is the number of entries.
#[verifier::external_body]
fn table_len(table: &DashMap<String, Flag, RandomState>) -> (n: usize)
    ensures
        n == table_entries(*table).len(),
{
    table.len()
}

/// Wraps `DashMap::is_empty`: claims that the result tells whether there is
/// no entry.
#[verifier::external_body]
fn table_is_empty(table: &DashMap<String, Flag, RandomState>) -> (b: bool)
    ensures
        b == (table_entries(*table).len() == 0),
{
    table.is_empty()
}

/// Wraps `DashMap::clear`: claims that afterwards there is no entry.
#[verifier::external_body]
fn table_clear(table: &mut DashMap<String, Flag, RandomState>)
    ensures
        table_entries(*final(table)) == empty_table(),
{
    table.clear()
}

/// Wraps `DashMap::iter`, cloning each (key, value) pair it yields: claims
/// that every entry comes out exactly once. The order is the map's iteration
/// order, which depends on its per-process hasher and is left open.
#[verifier::external_body]
fn table_pairs(table: &DashMap<String, Flag, RandomState>) -> (r: Vec<(String, Flag)>)
    ensures
        r.len() == table_entries(*table).len(),
        forall|i: int|
            0 <= i < r.len() ==> table_entries(*table).contains_key((#[trigger] r[i]).0@)
                && r[i].1@ == table_entries(*table)[r[i].0@],
        forall|i: int, j: int| 0 <= i < j < r.len() ==> (#[trigger] r[i]).0@ != (#[trigger] r[j]).0@,
        forall|k: Seq<char>|
            #[trigger] table_entries(*table).contains_key(k) ==> exists|i: int|
                0 <= i < r.len() && (#[trigger] r[i]).0@ == k,
{
    let mut out = Vec::new();
    for entry in table.iter() {
        out.push((entry.key().clone(), entry.value().clone()));
    }
    out
}

/// In-memory flag store backed by `DashMap`, keyed by flag name.
///
/// Suitable for tests, single-process deployments, and as a cache layer.
#[derive(Debug)]
pub struct MemoryFlagStore {
    inner: DashMap<String, Flag, RandomState>,
}

impl View for MemoryFlagStore {
    type V = Map<Seq<char>, FlagView>;

    /// The stored flags, by name.
    closed spec fn view(&self) -> Map<Seq<char>, FlagView> {
        table_entries(self.inner)
    }
}

impl MemoryFlagStore {
    /// The store's invariant: finitely many flags, each stored under its own name.
    pub open spec fn wf(&self) -> bool {
        &&& self@.dom().finite()
        &&& forall|k: Seq<char>| #[trigger] self@.contains_key(k) ==> self@[k].name == k
    }

    /// Creates a new empty store.
    pub fn new() -> (s: MemoryFlagStore)
        ensures
            s.wf(),
            s@ == empty_table(),
    {
        MemoryFlagStore { inner: table_new() }
    }

    /// Number of flags in the store.
    pub fn len(&self) -> (n: usize)
        ensures
            n == self@.len(),
    {
        table_len(&self.inner)
    }

    /// Returns `true` if the store holds no flag.
    pub fn is_empty(&self) -> (b: bool)
        ensures
            b == (self@.len() == 0),
    {
        table_is_empty(&self.inner)
    }

    /// Removes all flags.
    pub fn clear(&mut self)
        ensures
            final(self).wf(),
            final(self)@ == empty_table(),
    {
        table_clear(&mut self.inner);
    }

    /// Gets a flag by name, returning `None` if not found.
    pub fn get(&self, name: &FlagName) -> (r: Option<Flag>)
        ensures
            r is Some <==> self@.contains_key(name@),
            r matches Some(f) ==> f@ == self@[name@],
    {
        table_get(&self.inner, name.as_str())
    }

    /// Inserts or updates a flag under its name.
    pub fn set(&mut self, flag: Flag) -> (r: Result<(), FlagError>)
        requires
            old(self).wf(),
        ensures
            r is Ok,
            final(self).wf(),
            final(self)@ == old(self)@.insert(flag.name@, flag@),
    {
        let key = flag.name.to_string();
        let _ = table_insert(&mut self.inner, key, flag);
        Ok(())
    }

    /// Lists all flags, each once, in no particular order.
    pub fn list(&self) -> (r: Vec<Flag>)
        requires
            self.wf(),
        ensures
            r.len() == self@.len(),
            forall|i: int|
                0 <= i < r.len() ==> self@.contains_key((#[trigger] r[i]).name@) && r[i]@
                    == self@[r[i].name@],
            forall|i: int, j: int|
                0 <= i < j < r.len() ==> (#[trigger] r[i]).name@ != (#[trigger] r[j]).name@,
            forall|k: Seq<char>|
                #[trigger] self@.contains_key(k) ==> exists|i: int|
                    0 <= i < r.len() && (#[trigger] r[i]).name@ == k,
    {
        let pairs = table_pairs(&self.inner);
        let mut out: Vec<Flag> = Vec::new();
        let n = pairs.len();
        let mut i: usize = 0;
        while i < n
            invariant
                n == pairs.len(),
                i <= n,
                out.len() == i,
                forall|j: int| 0 <= j < i ==> (#[trigger] out[j])@ == pairs[j].1@,
            decreases n - i,
        {
            out.push(pairs[i].1.duplicate());
            i = i + 1;
        }
        assert forall|k: Seq<char>| #[trigger] self@.contains_key(k) implies exists|i: int|
            0 <= i < out.len() && (#[trigger] out[i]).name@ == k by {
            let i = choose|i: int| 0 <= i < pairs.len() && (#[trigger] pairs[i]).0@ == k;
            assert(out[i].name@ == k);
        }
        assert forall|i: int, j: int| 0 <= i < j < out.len() implies (#[trigger] out[i]).name@
            != (#[trigger] out[j]).name@ by {
            assert(pairs[i].0@ != pairs[j].0@);
        }
        out
    }

    /// Deletes a flag by name, returning `true` if it existed.
    pub fn delete(&mut self, name: &FlagName) -> (r: Result<bool, FlagError>)
        requires
            old(self).wf(),
        ensures
            r matches Ok(b) && b == old(self)@.contains_key(name@),
            final(self).wf(),
            final(self)@ == old(self)@.remove(name@),
    {
        let removed = table_remove(&mut self.inner, name.as_str());
        Ok(removed.is_some())
    }
}

impl Default for MemoryFlagStore {
    fn default() -> (s: MemoryFlagStore)
        ensures
            s.wf(),
            s@ == empty_table(),
    {
        MemoryFlagStore::new()
    }
}

} // verus!

verus! {

/// A read gives back what a write wrote: after storing `f`, looking up its
/// name yields `f`, and every other name yields what it did before.
pub proof fn lemma_get_after_set(stored: Map<Seq<char>, FlagView>, f: FlagView, k: Seq<char>)
    ensures
        stored.insert(f.name, f).contains_key(f.name),
        stored.insert(f.name, f)[f.name] == f,
        k != f.name ==> stored.insert(f.name, f).contains_key(k) == stored.contains_key(k),
        k != f.name && stored.contains_key(k) ==> stored.insert(f.name, f)[k] == stored[k],
{
}

/// A later write under the same name replaces an earlier one entirely.
pub proof fn lemma_set_overwrites(stored: Map<Seq<char>, FlagView>, f: FlagView, g: FlagView)
    requires
        f.name == g.name,
    ensures
        stored.insert(f.name, f).insert(g.name, g) == stored.insert(g.name, g),
{
    assert(stored.insert(f.name, f).insert(g.name, g) =~= stored.insert(g.name, g));
}

/// After a delete the name is gone, other names are untouched, and deleting a
/// name that is not stored changes nothing.
pub proof fn lemma_get_after_delete(stored: Map<Seq<char>, FlagView>, name: Seq<char>, k: Seq<char>)
    ensures
        !stored.remove(name).contains_key(name),
        k != name ==> stored.remove(name).contains_key(k) == stored.contains_key(k),
        k != name && stored.contains_key(k) ==> stored.remove(name)[k] == stored[k],
        !stored.contains_key(name) ==> stored.remove(name) == stored,
{
    if !stored.contains_key(name) {
        assert(stored.remove(name) =~= stored);
    }
}

} // verus!
