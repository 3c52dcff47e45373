//! A sharded in-memory key-value store for a Redis-style server.
//!
//! Keys are spread over a fixed number of shards by hashing them with the
//! standard library's `DefaultHasher`; each shard is an independent map from
//! keys to byte strings, so that shards can be locked independently.
//!
//! * `hashing` routes a key to its shard;
//! * `frame` holds the frames of the Redis protocol as plain values;
//! * `protocol` holds the commands and replies and what they mean over a map;
//! * `shard` applies a command to one shard;
//! * `db` ties the shards together into one store;
//! * `request` decodes a frame into a command routed to its shard;
//! * `laws` states what holds of the store across commands.

pub mod hashing;
pub mod frame;
pub mod protocol;
pub mod shard;
pub mod db;
pub mod request;
pub mod laws;
