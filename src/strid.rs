//! The cache of host string ids, keyed by a hash of the text.
//!
//! The host keeps a table of strings and names each by a numeric id; every
//! lookup of a variable or proc by name needs one. Asking the host is a
//! native call, so ids are cached by a 64-bit hash of the text, failures
//! included. Two texts with the same hash share an entry: the host's table
//! stays the source of truth, and such a collision would give a wrong hit.
use vstd::prelude::*;
use nohash_hasher::BuildNoHashHasher;
use vstd::string::StringSliceAdditionalSpecFns;
use std::hash::{Hash, Hasher};
use crate::string::{find_nul, nul_free, string_payload};
use crate::sys::NONE;

verus! {

/// The cache's first capacity.
pub const DEFAULT_CACHE_CAPACITY: usize = 512;

/// What the host's answer `raw` to a request for a string id means.
pub open spec fn id_from_native(raw: u32) -> Option<u32> {
    if raw == NONE as u32 {
        None
    } else {
        Some(raw)
    }
}

/// The key under which the id of `text` is cached. Relies on ahash's
/// `AHasher::default`, fed the text through std's `Hash`.
/// Its keys are fixed within a process only, so nothing is stated of the
/// hash itself.
#[verifier::external_body]
fn string_hash(text: &str) -> (r: u64) {
    let mut hasher = ahash::AHasher::default();
    text.hash(&mut hasher);
    hasher.finish()
}

/// The NUL-terminated bytes to hand the host for a request of the id of
/// `text`, or `None` where `text` holds a NUL, which the host cannot take.
pub fn str_id_request(text: &str) -> (r: Option<Vec<u8>>)
    ensures
        nul_free(text.spec_bytes()) ==> r is Some && r->Some_0@ == text.spec_bytes().push(0),
        !nul_free(text.spec_bytes()) ==> r is None,
{
    let bytes = text.as_bytes();
    match find_nul(bytes) {
        Some(_) => None,
        None => Some(string_payload(bytes)),
    }
}

/// The id that the host's answer `raw` gives.
pub fn id_from_raw(raw: u32) -> (r: Option<u32>)
    ensures
        r == id_from_native(raw),
{
    if raw == NONE as u32 {
        None
    } else {
        Some(raw)
    }
}

/// The first step of a lookup.
#[derive(Clone, Copy, Debug, PartialEq, Eq, Structural)]
pub enum StrIdLookup {
    /// The cache holds the answer: an id, or a cached failure.
    Cached(Option<u32>),
    /// The cache holds nothing for this hash: ask the host once and record
    /// its answer.
    Miss,
}

/// The cache's first step for `hash`.
pub open spec fn probe_spec(entries: Map<u64, Option<u32>>, hash: u64) -> StrIdLookup {
    if entries.contains_key(hash) {
        StrIdLookup::Cached(entries[hash])
    } else {
        StrIdLookup::Miss
    }
}

/// The id that a miss gives: the host's answer `raw`, or, where the text
/// could not be handed to the host at all (`None`), a failure.
pub open spec fn answer_id(raw: Option<u32>) -> Option<u32> {
    match raw {
        Some(r) => id_from_native(r),
        None => None,
    }
}

/// The entries and the result after a miss for `hash` was answered with
/// `raw`: an entry already there stays, else the answer is recorded, a
/// failure included.
pub open spec fn record_spec(entries: Map<u64, Option<u32>>, hash: u64, raw: Option<u32>) -> (
    Map<u64, Option<u32>>,
    Option<u32>,
) {
    if entries.contains_key(hash) {
        (entries, entries[hash])
    } else {
        (entries.insert(hash, answer_id(raw)), answer_id(raw))
    }
}

/// The map type of the cache: papaya's concurrent map, keyed by the hash
/// itself, which needs no hashing again.
pub type IdMap = papaya::HashMap<u64, Option<u32>, BuildNoHashHasher<u64>>;

#[verifier::external_type_specification]
#[verifier::external_body]
#[verifier::reject_recursive_types(K)]
#[verifier::reject_recursive_types(V)]
#[verifier::reject_recursive_types(S)]
pub struct ExPapayaHashMap<K, V, S>(papaya::HashMap<K, V, S>);

#[verifier::external_type_specification]
#[verifier::external_body]
#[verifier::reject_recursive_types(H)]
pub struct ExBuildHasherDefault<H>(std::hash::BuildHasherDefault<H>);

#[verifier::external_type_specification]
#[verifier::external_body]
#[verifier::reject_recursive_types(T)]
pub struct ExNoHashHasher<T>(nohash_hasher::NoHashHasher<T>);

/// A map that holds no ids.
pub open spec fn no_ids() -> Map<u64, Option<u32>> {
    Map::empty()
}

/// What the cache's map holds.
pub uninterp spec fn id_map_entries(m: IdMap) -> Map<u64, Option<u32>>;

/// Relies on papaya's `HashMap::with_capacity_and_hasher`: a new map is
/// empty.
#[verifier::external_body]
fn id_map_new(capacity: usize) -> (r: IdMap)
    ensures
        id_map_entries(r) == no_ids(),
{
    papaya::HashMap::with_capacity_and_hasher(capacity, BuildNoHashHasher::default())
}

/// Relies on papaya's `HashMapRef::get`: the value under `key`, if any.
#[verifier::external_body]
fn id_map_get(m: &IdMap, key: u64) -> (r: Option<Option<u32>>)
    ensures
        id_map_entries(*m).contains_key(key) ==> r == Some(id_map_entries(*m)[key]),
        !id_map_entries(*m).contains_key(key) ==> r is None,
{
    m.pin().get(&key).copied()
}

/// Relies on papaya's `HashMapRef::get_or_insert`: the value already under
/// `key`, left as it is, else `value`, inserted.
#[verifier::external_body]
fn id_map_get_or_insert(m: &mut IdMap, key: u64, value: Option<u32>) -> (r: Option<u32>)
    ensures
        id_map_entries(*old(m)).contains_key(key) ==> id_map_entries(*final(m)) == id_map_entries(
            *old(m),
        ) && r == id_map_entries(*old(m))[key],
        !id_map_entries(*old(m)).contains_key(key) ==> id_map_entries(*final(m))
            == id_map_entries(*old(m)).insert(key, value) && r == value,
{
    *m.pin().get_or_insert(key, value)
}

/// Relies on papaya's `HashMapRef::clear`: the map is left empty.
#[verifier::external_body]
fn id_map_clear(m: &mut IdMap)
    ensures
        id_map_entries(*final(m)) == no_ids(),
{
    m.pin().clear()
}

/// The string id cache: a map from a text's hash to the host's id for it, or
/// to a cached failure.
pub struct StringIdCache {
    entries: IdMap,
}

impl View for StringIdCache {
    type V = Map<u64, Option<u32>>;

    closed spec fn view(&self) -> Map<u64, Option<u32>> {
        id_map_entries(self.entries)
    }
}

impl StringIdCache {
    /// An empty cache.
    pub fn new() -> (r: StringIdCache)
        ensures
            r@ == Map::<u64, Option<u32>>::empty(),
    {
        StringIdCache { entries: id_map_new(DEFAULT_CACHE_CAPACITY) }
    }

    /// Forgets every entry. Done only when the host reloads, never while
    /// lookups run.
    pub fn clear(&mut self)
        ensures
            final(self)@ == Map::<u64, Option<u32>>::empty(),
    {
        id_map_clear(&mut self.entries);
    }

    /// The first step of a lookup of the text whose hash is `hash`.
    pub fn probe(&self, hash: u64) -> (r: StrIdLookup)
        ensures
            r == probe_spec(self@, hash),
    {
        match id_map_get(&self.entries, hash) {
            Some(id) => StrIdLookup::Cached(id),
            None => StrIdLookup::Miss,
        }
    }

    /// Records the answer to a miss for the text whose hash is `hash`: the
    /// host's answer `raw`, or `None` where `str_id_request` found the text
    /// unfit to hand over. Returns the id that the lookup gives. An entry
    /// already there wins.
    pub fn record(&mut self, hash: u64, raw: Option<u32>) -> (r: Option<u32>)
        ensures
            (final(self)@, r) == record_spec(old(self)@, hash, raw),
    {
        let id = match raw {
            Some(answer) => id_from_raw(answer),
            None => None,
        };
        id_map_get_or_insert(&mut self.entries, hash, id)
    }

    /// The first step of a lookup of `text`, with the hash under which the
    /// answer is to be recorded on a miss.
    pub fn lookup(&self, text: &str) -> (r: (u64, StrIdLookup))
        ensures
            r.1 == probe_spec(self@, r.0),
    {
        let hash = string_hash(text);
        (hash, self.probe(hash))
    }
}

/// A lookup whose answer was recorded is a hit the next time, with the same
/// id: the second lookup asks the host nothing.
pub proof fn lookup_is_idempotent(entries: Map<u64, Option<u32>>, hash: u64, raw: Option<u32>)
    ensures
        ({
            let (after, id) = record_spec(entries, hash, raw);
            &&& probe_spec(after, hash) == StrIdLookup::Cached(id)
            &&& record_spec(after, hash, raw) == (after, id)
        }),
{
}

} // verus!
