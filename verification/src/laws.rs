//! What holds of the store across commands.

use crate::db::ShardedDb;
use crate::frame::{frame_view, lemma_frames_view_index, RespFrame, RespFrameView};
use crate::hashing::{key_hash, shard_of, writes_after_key};
use crate::protocol::{command_key, reply_to, store_after, Command, CommandView, ReplyView, Store};
use crate::request::{served_view, DecodedView};
use std::collections::hash_map::DefaultHasher;
use vstd::prelude::*;
use vstd::std_specs::hash::DefaultHasherAdditionalSpecFns;

verus! {

/// A `GET` of a key after a `PUT` of that key replies with the value put.
pub proof fn law_get_after_put(m: Store, put: Command, get: Command)
    requires
        put is Put,
        get is Get,
        command_key(get) == command_key(put),
    ensures
        reply_to(store_after(m, put), get) == ReplyView::Bulk(put->value@),
{
}

/// A `PUT` leaves the value of every other key as it was.
pub proof fn law_put_keeps_other_keys(m: Store, put: Command, k: Seq<char>)
    requires
        put is Put,
        k != command_key(put),
    ensures
        store_after(m, put).contains_key(k) == m.contains_key(k),
        m.contains_key(k) ==> store_after(m, put)[k] == m[k],
{
}

/// A `GET` changes nothing.
pub proof fn law_get_changes_nothing(m: Store, get: Command)
    requires
        get is Get,
    ensures
        store_after(m, get) == m,
{
}

/// Of two `PUT`s of one key, the later decides what the store holds.
pub proof fn law_last_put_wins(m: Store, first: Command, second: Command)
    requires
        first is Put,
        second is Put,
        command_key(first) == command_key(second),
    ensures
        store_after(store_after(m, first), second) == store_after(m, second),
{
    assert(store_after(store_after(m, first), second) =~= store_after(m, second));
}

/// A `PUT` is always answered `OK`.
pub proof fn law_put_replies_ok(m: Store, put: Command)
    requires
        put is Put,
    ensures
        reply_to(m, put) == ReplyView::Simple("OK"@),
{
}

/// A key is always routed to the same shard, and that shard exists.
pub proof fn law_routing_is_stable(k1: Seq<char>, k2: Seq<char>, num_shards: nat)
    requires
        num_shards > 0,
        k1 == k2,
    ensures
        shard_of(k1, num_shards) == shard_of(k2, num_shards),
        shard_of(k1, num_shards) < num_shards,
{
}

/// In a well-formed store, a key is held by its own shard and by no other, and
/// the store holds it exactly when its own shard does.
pub proof fn law_key_lives_in_its_shard(db: ShardedDb, k: Seq<char>, i: int)
    requires
        db.wf(),
        0 <= i < db.num_shards(),
    ensures
        db.shard_views()[i].contains_key(k) ==> i == shard_of(k, db.num_shards()),
        i == shard_of(k, db.num_shards()) ==> (db@.contains_key(k) <==> db.shard_views()[i].contains_key(k)),
        db@.contains_key(k) ==> db@[k] == db.shard_views()[shard_of(k, db.num_shards()) as int][k],
{
}

/// Every key that `m` binds routes to shard `index` among `num_shards`.
pub open spec fn routes_only_to(m: Store, index: nat, num_shards: nat) -> bool {
    forall|k: Seq<char>| #[trigger] m.contains_key(k) ==> shard_of(k, num_shards) == index
}

/// A shard whose keys all route to it still holds only such keys after it
/// handles a command routed to it, as the server's shards do one request at
/// a time.
pub proof fn law_handling_keeps_shard_routing(m: Store, cmd: Command, index: nat, num_shards: nat)
    requires
        routes_only_to(m, index, num_shards),
        shard_of(command_key(cmd), num_shards) == index,
    ensures
        routes_only_to(store_after(m, cmd), index, num_shards),
{
}

/// A `GET` answers with a value only where the store binds that very key to
/// it: a `GET` of a key the store does not hold replies `Null`, and a `Bulk`
/// reply is the value bound to the key asked for.
pub proof fn law_get_finds_only_its_own_key(m: Store, get: Command)
    requires
        get is Get,
    ensures
        !m.contains_key(command_key(get)) ==> reply_to(m, get) == ReplyView::Null,
        reply_to(m, get) matches ReplyView::Bulk(v) ==> m.contains_key(command_key(get)) && m[command_key(get)]
            == v,
        reply_to(m, get) is Null || reply_to(m, get) is Bulk,
{
}

/// A decoded `SET` becomes a `PUT` of the same key with the same value
/// bytes, whatever its expiry; a decoded `GET` becomes a `GET` of the same
/// key; every other decoded command becomes unsupported, described by its
/// text.
pub proof fn law_served_keeps_keys_and_values(d: DecodedView)
    ensures
        d matches DecodedView::SetKey { key, value, .. } ==> (served_view(d) matches CommandView::Put {
            key: k,
            value: v,
        } && k == key && v == value),
        d matches DecodedView::Get { key } ==> (served_view(d) matches CommandView::Get { key: k } && k
            == key),
        d matches DecodedView::Publish { text } ==> (served_view(d) matches CommandView::Unsupported {
            description,
        } && description == text),
        d matches DecodedView::Subscribe { text } ==> (served_view(d) matches CommandView::Unsupported {
            description,
        } && description == text),
        d matches DecodedView::Unsubscribe { text } ==> (served_view(d) matches CommandView::Unsupported {
            description,
        } && description == text),
        d matches DecodedView::Unknown { text } ==> (served_view(d) matches CommandView::Unsupported {
            description,
        } && description == text),
{
}

/// The hash of a key is what a fresh `DefaultHasher` finishes with after
/// being fed the whole key, so keys fed differently may hash differently
/// however long their common prefix; the shard is that hash modulo the
/// number of shards.
pub proof fn law_hash_covers_whole_key(key: Seq<char>, num_shards: nat)
    requires
        num_shards > 0,
    ensures
        key_hash(key) == DefaultHasher::spec_finish(writes_after_key(Seq::empty(), key)),
        shard_of(key, num_shards) == ((DefaultHasher::spec_finish(writes_after_key(Seq::empty(), key))
            as usize) as nat) % num_shards,
{
}

/// The content of a frame is its values unchanged: text, integers and bulk
/// bytes as they are, and an array holds the contents of its items in order.
pub proof fn law_frame_content_is_its_values(f: RespFrame)
    ensures
        f matches RespFrame::Simple(s) ==> frame_view(f) == RespFrameView::Simple(s@),
        f matches RespFrame::Error(s) ==> frame_view(f) == RespFrameView::Error(s@),
        f matches RespFrame::Integer(n) ==> frame_view(f) == RespFrameView::Integer(n),
        f matches RespFrame::Bulk(b) ==> frame_view(f) == RespFrameView::Bulk(b@),
        f is Null ==> frame_view(f) == RespFrameView::Null,
        f matches RespFrame::Array(items) ==> {
            &&& frame_view(f) matches RespFrameView::Array(contents)
            &&& contents.len() == items@.len()
            &&& forall|j: int| 0 <= j < items@.len() ==> #[trigger] contents[j] == frame_view(items@[j])
        },
{
    if let RespFrame::Array(items) = f {
        lemma_frames_view_index(items@);
    }
}

} // verus!
