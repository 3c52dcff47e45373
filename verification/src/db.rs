//! The sharded store: a fixed number of shards, each key kept in the shard
//! that its hash selects.

use crate::hashing::{shard_for_key, shard_of};
use crate::protocol::{command_key, is_supported, reply_to, store_after, Command, Reply, Store};
use crate::shard::Shard;
use vstd::prelude::*;

verus! {

/// A store split into shards.
pub struct ShardedDb {
    shards: Vec<Shard>,
}

impl ShardedDb {
    /// The contents of each shard, in order.
    pub closed spec fn shard_views(&self) -> Seq<Store> {
        self.shards@.map_values(|s: Shard| s@)
    }

    /// The number of shards.
    pub open spec fn num_shards(&self) -> nat {
        self.shard_views().len()
    }

    /// Every key sits in the shard that its hash selects; every store keeps
    /// this.
    #[verifier::type_invariant]
    pub open spec fn wf(&self) -> bool {
        forall|i: int, k: Seq<char>|
            0 <= i < self.num_shards() && #[trigger] self.shard_views()[i].contains_key(k)
                ==> shard_of(k, self.num_shards()) == i
    }

    /// Whether the store holds `k`: its own shard binds it.
    pub open spec fn holds(&self, k: Seq<char>) -> bool {
        &&& self.num_shards() > 0
        &&& self.shard_views()[shard_of(k, self.num_shards()) as int].contains_key(k)
    }
}

impl View for ShardedDb {
    type V = Store;

    /// The store as one map: each key with the value its own shard binds.
    open spec fn view(&self) -> Store {
        Map::new(
            |k: Seq<char>| self.holds(k),
            |k: Seq<char>| self.shard_views()[shard_of(k, self.num_shards()) as int][k],
        )
    }
}

/// Creates a store of `num_shards` empty shards.
///
/// The shards are allocated at once, so their total size must stay within
/// the allocation limit of `isize::MAX` bytes.
pub fn new_sharded_db(num_shards: usize) -> (db: ShardedDb)
    requires
        num_shards * vstd::layout::size_of::<Shard>() <= isize::MAX,
    ensures
        db.wf(),
        db.num_shards() == num_shards,
        forall|i: int| 0 <= i < num_shards ==> #[trigger] db.shard_views()[i] == Store::empty(),
        db@ == Store::empty(),
{
    let mut shards: Vec<Shard> = Vec::with_capacity(num_shards);
    let mut i: usize = 0;
    while i < num_shards
        invariant
            i <= num_shards,
            shards@.len() == i,
            forall|j: int| 0 <= j < i ==> #[trigger] shards@[j]@ == Store::empty(),
        decreases num_shards - i,
    {
        shards.push(Shard::new());
        i = i + 1;
    }
    let db = ShardedDb { shards };
    assert(db@ =~= Store::empty());
    db
}

impl ShardedDb {
    /// The number of shards.
    pub fn shard_count(&self) -> (n: usize)
        ensures
            n == self.num_shards(),
    {
        self.shards.len()
    }

    /// The index of the shard that holds `key`.
    pub fn shard_index(&self, key: &String) -> (index: usize)
        requires
            self.num_shards() > 0,
        ensures
            index == shard_of(key@, self.num_shards()),
            index < self.num_shards(),
    {
        shard_for_key(key, self.shards.len())
    }

    /// Applies a `GET` or `PUT` to the shard that holds its key, and returns
    /// the reply.
    pub fn handle(&mut self, cmd: Command) -> (reply: Reply)
        requires
            old(self).num_shards() > 0,
            is_supported(cmd),
        ensures
            final(self).num_shards() == old(self).num_shards(),
            final(self)@ == store_after(old(self)@, cmd),
            reply@ == reply_to(old(self)@, cmd),
            final(self).shard_views()[shard_of(command_key(cmd), old(self).num_shards()) as int]
                == store_after(old(self).shard_views()[shard_of(command_key(cmd), old(self).num_shards()) as int], cmd),
            forall|i: int|
                0 <= i < old(self).num_shards() && i != shard_of(command_key(cmd), old(self).num_shards())
                    ==> #[trigger] final(self).shard_views()[i] == old(self).shard_views()[i],
    {
        proof {
            use_type_invariant(&*self);
        }
        let n = self.shards.len();
        let index = match &cmd {
            Command::Get { key } => shard_for_key(key, n),
            Command::Put { key, .. } => shard_for_key(key, n),
            Command::Unsupported { .. } => 0,
        };
        let ghost old_views = self.shard_views();
        let mut shards: Vec<Shard> = Vec::new();
        std::mem::swap(&mut shards, &mut self.shards);
        let reply = shards[index].handle(cmd);
        let ghost new_views = shards@.map_values(|s: Shard| s@);
        assert(new_views =~= old_views.update(index as int, store_after(old_views[index as int], cmd)));
        self.shards = shards;
        assert(self.shard_views() == new_views);
        assert(self@ =~= store_after(old(self)@, cmd));
        reply
    }

    /// The shards, in order, for callers that guard each one separately.
    pub fn into_shards(self) -> (shards: Vec<Shard>)
        ensures
            shards@.map_values(|s: Shard| s@) == self.shard_views(),
    {
        self.shards
    }
}

} // verus!
