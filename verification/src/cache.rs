//! The two cache tiers, backed by a bounded concurrent cache from an
//! outside crate.
//!
//! Both tiers evict under capacity pressure and the alias tier also
//! expires entries after a time-to-live, so an entry may vanish between
//! any two calls.  The contracts therefore track an upper bound on the
//! contents: a lookup only ever returns a value that some insert put
//! there, and an insert never changes or invents any other entry.

use vstd::prelude::*;

verus! {

#[verifier::external_type_specification]
#[verifier::external_body]
#[verifier::reject_recursive_types(K)]
#[verifier::reject_recursive_types(V)]
#[verifier::reject_recursive_types(S)]
pub struct ExMokaCache<K, V, S>(moka::sync::Cache<K, V, S>);

/// What the channel-to-peer tier holds: packed short-channel-id key to
/// the counterparty's public-key bytes.
pub uninterp spec fn channel_peer_contents(c: moka::sync::Cache<u64, Vec<u8>>) -> Map<
    u64,
    Seq<u8>,
>;

/// What the alias tier holds: public-key bytes to display name.
pub uninterp spec fn alias_contents(c: moka::sync::Cache<Vec<u8>, String>) -> Map<
    Seq<u8>,
    Seq<char>,
>;

/// Relies on moka::sync::Cache::new: a fresh bounded cache holds nothing.
#[verifier::external_body]
pub fn channel_cache_new(capacity: u64) -> (r: moka::sync::Cache<u64, Vec<u8>>)
    ensures
        channel_peer_contents(r) =~= Map::empty(),
{
    moka::sync::Cache::new(capacity)
}

/// Relies on moka::sync::Cache::get: a hit returns a clone of an entry
/// that an insert put there; a miss (absent, expired or evicted) is None.
#[verifier::external_body]
pub fn channel_cache_get(c: &moka::sync::Cache<u64, Vec<u8>>, key: u64) -> (r: Option<Vec<u8>>)
    ensures
        r matches Some(v) ==> channel_peer_contents(*c).contains_pair(key, v@),
{
    c.get(&key)
}

/// Relies on moka::sync::Cache::insert: adds or updates the given entry;
/// eviction may drop entries but never changes or invents one.
#[verifier::external_body]
pub fn channel_cache_insert(c: &mut moka::sync::Cache<u64, Vec<u8>>, key: u64, value: Vec<u8>)
    ensures
        forall|k: u64, v: Seq<u8>|
            channel_peer_contents(*final(c)).contains_pair(k, v) ==> channel_peer_contents(
                *old(c),
            ).insert(key, value@).contains_pair(k, v),
{
    c.insert(key, value)
}

/// The longest time-to-live the cache builder accepts: 1000 years of
/// 365 days, in seconds.  Beyond it, building the cache panics.
pub const MAX_TTL_SECS: u64 = 1000 * 365 * 24 * 3600;

/// Relies on moka::sync::CacheBuilder (new, time_to_live, build): a fresh
/// bounded cache with a time-to-live holds nothing.  build panics on a
/// time-to-live longer than 1000 years, so such values are excluded.
#[verifier::external_body]
pub fn alias_cache_new(capacity: u64, ttl_secs: u64) -> (r: moka::sync::Cache<Vec<u8>, String>)
    requires
        ttl_secs <= MAX_TTL_SECS,
    ensures
        alias_contents(r) =~= Map::empty(),
{
    moka::sync::CacheBuilder::new(capacity).time_to_live(
        std::time::Duration::from_secs(ttl_secs),
    ).build()
}

/// Relies on moka::sync::Cache::get: a hit returns a clone of an entry
/// that an insert put there; a miss (absent, expired or evicted) is None.
#[verifier::external_body]
pub fn alias_cache_get(c: &moka::sync::Cache<Vec<u8>, String>, key: &Vec<u8>) -> (r: Option<
    String,
>)
    ensures
        r matches Some(a) ==> alias_contents(*c).contains_pair(key@, a@),
{
    c.get(key)
}

/// Relies on moka::sync::Cache::insert: adds or updates the given entry;
/// eviction may drop entries but never changes or invents one.
#[verifier::external_body]
pub fn alias_cache_insert(c: &mut moka::sync::Cache<Vec<u8>, String>, key: Vec<u8>, value: String)
    ensures
        forall|k: Seq<u8>, v: Seq<char>|
            alias_contents(*final(c)).contains_pair(k, v) ==> alias_contents(*old(c)).insert(
                key@,
                value@,
            ).contains_pair(k, v),
{
    c.insert(key, value)
}

} // verus!
