//! Routing a key to its shard.

use std::collections::hash_map::DefaultHasher;
use std::hash::{Hash, Hasher};
use vstd::prelude::*;
use vstd::std_specs::hash::DefaultHasherAdditionalSpecFns;

verus! {

/// What a `DefaultHasher` has been fed after `Hash::hash` of a string with the
/// given characters, starting from the writes in `before`.
pub uninterp spec fn writes_after_key(before: Seq<Seq<u8>>, key: Seq<char>) -> Seq<Seq<u8>>;

/// Feeds `key` to `hasher` through `<String as Hash>::hash`.
///
/// Trusted: the contract claims that the writes the hasher has seen afterwards
/// depend only on the writes before and on the characters of the key, as
/// `Hash` requires of a type whose equal values must hash alike; which bytes
/// are written is left unsaid.
#[verifier::external_body]
fn feed_key(hasher: &mut DefaultHasher, key: &String)
    ensures
        final(hasher)@ == writes_after_key(old(hasher)@, key@),
{
    key.hash(hasher);
}

/// The hash that a fresh `DefaultHasher` gives a key.
pub open spec fn key_hash(key: Seq<char>) -> u64 {
    DefaultHasher::spec_finish(writes_after_key(Seq::empty(), key))
}

/// The shard that holds `key` in a store of `num_shards` shards: the key's
/// hash, taken as a `usize`, modulo the number of shards.
pub open spec fn shard_of(key: Seq<char>, num_shards: nat) -> nat {
    ((key_hash(key) as usize) as nat) % num_shards
}

/// Hashes `key` with a fresh `DefaultHasher`.
pub fn hash_key(key: &String) -> (h: u64)
    ensures
        h == key_hash(key@),
{
    let mut hasher = DefaultHasher::new();
    feed_key(&mut hasher, key);
    hasher.finish()
}

/// The index of the shard that holds `key` among `num_shards` shards.
pub fn shard_for_key(key: &String, num_shards: usize) -> (index: usize)
    requires
        num_shards > 0,
    ensures
        index == shard_of(key@, num_shards as nat),
        index < num_shards,
{
    let h = hash_key(key);
    (h as usize) % num_shards
}

} // verus!
