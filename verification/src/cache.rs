//! The response cache: documents by key, each with the time it was stored.
//!
//! Entries are never swept. A lookup answers only from an entry that is
//! younger than the time to live; an older entry stays where it is until a
//! store under the same key replaces it.

use vstd::prelude::*;
use dashmap::DashMap;
use crate::json::{Json, JsonView};
use crate::time::Instant;

verus! {

/// How long a stored document stays fresh, in seconds.
pub const CACHE_DURATION_SECS: u64 = 300;

/// How long a stored document stays fresh, in nanoseconds.
pub const CACHE_DURATION_NANOS: i128 = 300_000_000_000;

/// A stored document and the time it was stored.
#[derive(Debug)]
pub struct CacheEntry {
    pub data: Json,
    pub timestamp: Instant,
}

/// The value of a cache entry.
pub struct CacheEntryView {
    pub data: JsonView,
    pub timestamp: Instant,
}

impl View for CacheEntry {
    type V = CacheEntryView;

    open spec fn view(&self) -> CacheEntryView {
        CacheEntryView { data: self.data@, timestamp: self.timestamp }
    }
}

impl Clone for CacheEntry {
    fn clone(&self) -> (r: CacheEntry)
        ensures
            r@ == self@,
    {
        CacheEntry { data: self.data.clone(), timestamp: self.timestamp }
    }
}

/// `dashmap::DashMap`, the map that holds the entries.
#[verifier::external_type_specification]
#[verifier::external_body]
#[verifier::reject_recursive_types(K)]
#[verifier::reject_recursive_types(V)]
#[verifier::reject_recursive_types(S)]
pub struct ExDashMap<K, V, S>(DashMap<K, V, S>);

/// What a map of cache entries holds: for each key that is present, the
/// value of its entry.
pub uninterp spec fn stored(map: DashMap<String, CacheEntry>) -> Map<Seq<char>, CacheEntryView>;

/// The contents of a cache that holds nothing.
pub open spec fn nothing_stored() -> Map<Seq<char>, CacheEntryView> {
    Map::empty()
}

/// `DashMap::new`: a map that holds nothing.
#[verifier::external_body]
fn map_new() -> (r: DashMap<String, CacheEntry>)
    ensures
        stored(r) == nothing_stored(),
{
    DashMap::new()
}

/// `DashMap::get`, with a copy of the entry handed out in place of the
/// guard: the entry under the key, if the key is present.
#[verifier::external_body]
fn map_get(map: &DashMap<String, CacheEntry>, key: &str) -> (r: Option<CacheEntry>)
    ensures
        match r {
            Some(entry) => stored(*map).contains_key(key@) && stored(*map)[key@] == entry@,
            None => !stored(*map).contains_key(key@),
        },
{
    map.get(key).map(|entry| entry.value().clone())
}

/// `DashMap::insert`: afterwards the key holds the new entry, and every
/// other key holds what it held.
#[verifier::external_body]
fn map_insert(map: &mut DashMap<String, CacheEntry>, key: String, entry: CacheEntry)
    ensures
        stored(*final(map)) == stored(*old(map)).insert(key@, entry@),
{
    map.insert(key, entry);
}

/// True when an entry stored at `stored_at` is still fresh at `now`: fewer
/// than 300 seconds have passed.
pub open spec fn fresh(stored_at: Instant, now: Instant) -> bool {
    now.total_nanos() - stored_at.total_nanos() < CACHE_DURATION_NANOS
}

/// What a lookup answers: the document under the key, if there is one and
/// it is fresh.
pub open spec fn lookup(
    entries: Map<Seq<char>, CacheEntryView>,
    key: Seq<char>,
    now: Instant,
) -> Option<JsonView> {
    if entries.contains_key(key) && fresh(entries[key].timestamp, now) {
        Some(entries[key].data)
    } else {
        None
    }
}

/// Whether an entry stored at `stored_at` is still fresh at `now`.
pub fn is_fresh(stored_at: Instant, now: Instant) -> (r: bool)
    ensures
        r == fresh(stored_at, now),
{
    now.nanos_since_epoch() - stored_at.nanos_since_epoch() < CACHE_DURATION_NANOS
}

/// The cache of one client.
pub struct Cache {
    map: DashMap<String, CacheEntry>,
}

impl View for Cache {
    type V = Map<Seq<char>, CacheEntryView>;

    closed spec fn view(&self) -> Map<Seq<char>, CacheEntryView> {
        stored(self.map)
    }
}

impl Cache {
    /// An empty cache.
    pub fn new() -> (r: Cache)
        ensures
            r@ == nothing_stored(),
    {
        Cache { map: map_new() }
    }

    /// The document stored under `key`, if one is stored and it is fresh at
    /// `now`. The cache is not changed: a stale entry stays.
    pub fn get(&self, key: &str, now: Instant) -> (r: Option<Json>)
        ensures
            crate::json::opt_view(r) == lookup(self@, key@, now),
    {
        match map_get(&self.map, key) {
            Some(entry) => if is_fresh(entry.timestamp, now) {
                Some(entry.data)
            } else {
                None
            },
            None => None,
        }
    }

    /// Stores `value` under `key` with the time `now`, replacing what was
    /// stored under that key. Other keys keep what they hold.
    pub fn put(&mut self, key: String, value: Json, now: Instant)
        ensures
            final(self)@ == old(self)@.insert(
                key@,
                CacheEntryView { data: value@, timestamp: now },
            ),
    {
        map_insert(&mut self.map, key, CacheEntry { data: value, timestamp: now });
    }
}

} // verus!
