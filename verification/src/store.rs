//! The store: a mapping from string keys to string values, backed by a
//! concurrent hash map so that many worker threads can read and write it
//! without a single global lock.
//!
//! The contracts model the map as a `Map<Seq<char>, Seq<char>>`: at most one
//! value per key, a write for an existing key replaces the prior value, and
//! keys are never removed. They state what a caller holding the store
//! exclusively observes; the map's own synchronization is what makes the
//! same operations safe under shared concurrent access.

use vstd::prelude::*;

verus! {

#[verifier::external_type_specification]
#[verifier::external_body]
#[verifier::reject_recursive_types(K)]
#[verifier::reject_recursive_types(V)]
#[verifier::reject_recursive_types(S)]
pub struct ExPapayaHashMap<K, V, S>(papaya::HashMap<K, V, S>);

/// What the concurrent map holds: the association from keys to values.
pub uninterp spec fn map_contents(
    m: papaya::HashMap<String, String, std::hash::RandomState>,
) -> Map<Seq<char>, Seq<char>>;

/// The store shared by every request handler: string keys to string values.
pub struct KvStore {
    pub map: papaya::HashMap<String, String, std::hash::RandomState>,
}

impl KvStore {
    /// The mapping this store currently holds.
    pub open spec fn contents(self) -> Map<Seq<char>, Seq<char>> {
        map_contents(self.map)
    }

    /// Relies on papaya::HashMap::with_capacity: creates an empty map
    /// pre-sized to hold at least `capacity` entries before resizing.
    #[verifier::external_body]
    pub fn with_capacity(capacity: usize) -> (s: KvStore)
        ensures
            map_contents(s.map) =~= Map::empty(),
    {
        KvStore { map: papaya::HashMap::with_capacity(capacity) }
    }

    /// Relies on papaya::HashMap::insert (through a pinned guard): associates
    /// `value` with `key`, silently replacing any value the key had before.
    #[verifier::external_body]
    pub fn insert(&mut self, key: String, value: String)
        ensures
            map_contents(final(self).map) == map_contents(old(self).map).insert(key@, value@),
    {
        self.map.pin().insert(key, value);
    }

    /// Relies on papaya::HashMap::get (through a pinned guard): returns the
    /// value currently associated with `key`, or nothing if the key is absent.
    #[verifier::external_body]
    pub fn get(&self, key: &String) -> (r: Option<String>)
        ensures
            match r {
                Some(v) => map_contents(self.map).contains_key(key@) && v@ == map_contents(
                    self.map,
                )[key@],
                None => !map_contents(self.map).contains_key(key@),
            },
    {
        self.map.pin().get(key).cloned()
    }
}

} // verus!
