//! One shard: a map from keys to byte strings.

use crate::protocol::{is_supported, reply_to, store_after, Command, Reply, Store};
use std::collections::HashMap;
use vstd::prelude::*;

verus! {

/// The entries that a map of one shard holds, keyed by the characters of the
/// key and valued by the bytes stored.
pub uninterp spec fn entries_of(m: HashMap<String, Vec<u8>>) -> Map<Seq<char>, Seq<u8>>;

/// Calls `HashMap::new`.
///
/// Trusted: the new map holds no entry.
#[verifier::external_body]
fn empty_entries() -> (result: HashMap<String, Vec<u8>>)
    ensures
        entries_of(result) == Store::empty(),
{
    HashMap::new()
}

/// Calls `HashMap::insert`.
///
/// Trusted: afterwards the map binds the key to the value and is otherwise
/// unchanged (a `String` key is found again by any `String` with the same
/// characters).  The value that was replaced, if any, is dropped.
#[verifier::external_body]
fn insert_entry(m: &mut HashMap<String, Vec<u8>>, key: String, value: Vec<u8>)
    ensures
        entries_of(*final(m)) == entries_of(*old(m)).insert(key@, value@),
{
    m.insert(key, value);
}

/// Calls `HashMap::get`.
///
/// Trusted: the result is the value bound to a key with the same characters,
/// or `None` where no such key is bound.
#[verifier::external_body]
fn lookup_entry<'a>(m: &'a HashMap<String, Vec<u8>>, key: &String) -> (r: Option<&'a Vec<u8>>)
    ensures
        match r {
            Some(v) => entries_of(*m).contains_key(key@) && v@ == entries_of(*m)[key@],
            None => !entries_of(*m).contains_key(key@),
        },
{
    m.get(key)
}

/// The map of one shard.
#[derive(Debug)]
pub struct Shard {
    entries: HashMap<String, Vec<u8>>,
}

impl View for Shard {
    type V = Store;

    closed spec fn view(&self) -> Store {
        entries_of(self.entries)
    }
}

impl Shard {
    /// An empty shard.
    pub fn new() -> (s: Shard)
        ensures
            s@ == Map::<Seq<char>, Seq<u8>>::empty(),
    {
        Shard { entries: empty_entries() }
    }

    /// Applies a `GET` or `PUT` to this shard and returns the reply.
    pub fn handle(&mut self, cmd: Command) -> (reply: Reply)
        requires
            is_supported(cmd),
        ensures
            final(self)@ == store_after(old(self)@, cmd),
            reply@ == reply_to(old(self)@, cmd),
    {
        match cmd {
            Command::Put { key, value } => {
                insert_entry(&mut self.entries, key, value);
                Reply::Simple("OK".to_owned())
            },
            Command::Get { key } => {
                match lookup_entry(&self.entries, &key) {
                    Some(value) => Reply::Bulk(value.clone()),
                    None => Reply::Null,
                }
            },
            Command::Unsupported { .. } => Reply::Null,
        }
    }
}

} // verus!
