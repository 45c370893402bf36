//! The cache of recently seen documents: bounded, and dropping what was
//! not looked at for a while. A lookup may miss whatever was stored; it
//! never hands out anything but the last document stored under the key.

use vstd::prelude::*;
use std::sync::Arc;
use mini_moka::sync::Cache;
use crate::recent::texts;
use crate::types::MindMap;

verus! {

#[verifier::external_type_specification]
#[verifier::external_body]
#[verifier::reject_recursive_types(K)]
#[verifier::reject_recursive_types(V)]
#[verifier::reject_recursive_types(S)]
pub struct ExCache<K, V, S>(Cache<K, V, S>);

/// The most documents that the cache is built to keep.
pub const CACHE_CAPACITY: u64 = 10;

/// The seconds after which a document that nobody looked at is dropped.
pub const CACHE_IDLE_SECS: u64 = 300;

/// The longest idle time that a cache can be built with, in seconds: a
/// thousand years of 365 days.
pub const CACHE_IDLE_SECS_MAX: u64 = 31_536_000_000;

/// What was written to a cache: under each key the document last stored
/// there and not discarded since. The cache itself may hold less, since
/// it drops entries over its capacity and entries left idle.
pub uninterp spec fn cache_written(cache: Cache<String, Arc<MindMap>>) -> Map<Seq<char>, MindMap>;

/// The number of documents that a cache was built to keep: the
/// `max_capacity` that its builder was given.
pub uninterp spec fn cache_capacity(cache: Cache<String, Arc<MindMap>>) -> nat;

/// The state of a cache that nothing was written to.
pub open spec fn nothing_written() -> Map<Seq<char>, MindMap> {
    Map::empty()
}

/// Builds a cache with `mini_moka::sync::CacheBuilder`: `max_capacity`,
/// `time_to_idle`, `build`. Claimed: nothing was written to it yet, and it
/// is built to keep `capacity` documents.
/// `build` panics on an idle time over a thousand years, which `requires`
/// leaves out.
#[verifier::external_body]
pub(crate) fn cache_new(capacity: u64, idle_secs: u64) -> (cache: Cache<String, Arc<MindMap>>)
    requires
        idle_secs <= CACHE_IDLE_SECS_MAX,
    ensures
        cache_written(cache) == nothing_written(),
        cache_capacity(cache) == capacity,
{
    Cache::builder().max_capacity(capacity).time_to_idle(
        std::time::Duration::from_secs(idle_secs),
    ).build()
}

/// Calls `Cache::insert`. Claimed: the document is the last one written
/// under the key, nothing else that was written changes, and the cache
/// keeps the capacity it was built with.
#[verifier::external_body]
pub(crate) fn cache_put(cache: &mut Cache<String, Arc<MindMap>>, key: String, mind_map: MindMap)
    ensures
        cache_written(*final(cache)) == cache_written(*old(cache)).insert(key@, mind_map),
        cache_capacity(*final(cache)) == cache_capacity(*old(cache)),
    no_unwind
{
    cache.insert(key, Arc::new(mind_map));
}

/// Calls `Cache::get`. Claimed: what comes back, if anything, is the
/// document last written under the key. A miss is possible at any time.
#[verifier::external_body]
pub(crate) fn cache_get(cache: &Cache<String, Arc<MindMap>>, key: &String) -> (found: Option<
    Arc<MindMap>,
>)
    ensures
        match found {
            Some(shared) => cache_written(*cache).contains_key(key@) && cache_written(
                *cache,
            )[key@] == *shared,
            None => true,
        },
{
    cache.get(key)
}

/// Calls `Cache::invalidate`. Claimed: nothing counts as written under
/// the key any more, nothing else that was written changes, and the
/// cache keeps the capacity it was built with.
#[verifier::external_body]
pub(crate) fn cache_discard(cache: &mut Cache<String, Arc<MindMap>>, key: &String)
    ensures
        cache_written(*final(cache)) == cache_written(*old(cache)).remove(key@),
        cache_capacity(*final(cache)) == cache_capacity(*old(cache)),
    no_unwind
{
    cache.invalidate(key);
}

/// Calls `Cache::iter` and copies the key of each entry it yields.
/// Claimed: each key is one that something was written under, and no key
/// comes twice, as the iterator visits the entries of a map.
#[verifier::external_body]
pub(crate) fn cache_keys(cache: &Cache<String, Arc<MindMap>>) -> (keys: Vec<String>)
    ensures
        forall|i: int| 0 <= i < keys@.len() ==> cache_written(*cache).contains_key(#[trigger] keys@[i]@),
        texts(keys@).no_duplicates(),
{
    let mut keys: Vec<String> = Vec::new();
    for entry in cache.iter() {
        keys.push(entry.key().clone());
    }
    keys
}

/// Calls `Cache::entry_count`, which estimates how many entries the
/// cache holds; nothing is claimed of the number.
#[verifier::external_body]
pub(crate) fn cache_entry_count(cache: &Cache<String, Arc<MindMap>>) -> (count: u64)
{
    cache.entry_count()
}

} // verus!
