use sharded_kv::db::new_sharded_db;
use sharded_kv::frame::RespFrame;
use sharded_kv::hashing::{hash_key, shard_for_key};
use sharded_kv::protocol::{Command, Reply};
use sharded_kv::request::{
    decode_command, request_from_frame, route_command, served, Decoded, ProtocolError, Request,
};
use std::time::Duration;
use sharded_kv::shard::Shard;
use std::collections::hash_map::DefaultHasher;
use std::hash::{Hash, Hasher};

fn std_hash(key: &str) -> u64 {
    let mut hasher = DefaultHasher::new();
    key.to_string().hash(&mut hasher);
    hasher.finish()
}

fn get(key: &str) -> Command {
    Command::Get { key: key.to_string() }
}

fn put(key: &str, value: &[u8]) -> Command {
    Command::Put { key: key.to_string(), value: value.to_vec() }
}

fn command_frame(parts: &[&str]) -> RespFrame {
    RespFrame::Array(parts.iter().map(|p| RespFrame::Bulk(p.as_bytes().to_vec())).collect())
}

#[test]
fn hash_key_matches_default_hasher() {
    assert_eq!(hash_key(&"hello".to_string()), std_hash("hello"));
    assert_eq!(hash_key(&"".to_string()), std_hash(""));
}

#[test]
fn hash_key_depends_on_the_key() {
    assert_ne!(hash_key(&"a".to_string()), hash_key(&"b".to_string()));
    assert_ne!(hash_key(&"a".to_string()), hash_key(&"".to_string()));
}

#[test]
fn hash_key_is_stable() {
    let k = "some key".to_string();
    assert_eq!(hash_key(&k), hash_key(&k.clone()));
}

#[test]
fn shard_for_key_is_hash_modulo_count() {
    for key in ["a", "b", "foo", "hello world", ""] {
        let n = 1000usize;
        let expected = (std_hash(key) as usize) % n;
        assert_eq!(shard_for_key(&key.to_string(), n), expected);
    }
}

#[test]
fn shard_for_key_with_one_shard_is_zero() {
    assert_eq!(shard_for_key(&"anything".to_string(), 1), 0);
}

#[test]
fn shard_for_key_stays_in_range() {
    for i in 0..200 {
        let key = format!("key-{}", i);
        assert!(shard_for_key(&key, 7) < 7);
    }
}

#[test]
fn shard_put_replies_ok_and_get_finds_value() {
    let mut shard = Shard::new();
    assert_eq!(shard.handle(put("hello", b"world")), Reply::Simple("OK".to_string()));
    assert_eq!(shard.handle(get("hello")), Reply::Bulk(b"world".to_vec()));
}

#[test]
fn shard_get_of_absent_key_is_null() {
    let mut shard = Shard::new();
    assert_eq!(shard.handle(get("missing")), Reply::Null);
    shard.handle(put("other", b"x"));
    assert_eq!(shard.handle(get("missing")), Reply::Null);
}

#[test]
fn shard_put_overwrites() {
    let mut shard = Shard::new();
    shard.handle(put("k", b"first"));
    shard.handle(put("k", b"second"));
    assert_eq!(shard.handle(get("k")), Reply::Bulk(b"second".to_vec()));
}

#[test]
fn shard_stores_empty_value() {
    let mut shard = Shard::new();
    shard.handle(put("empty", b""));
    assert_eq!(shard.handle(get("empty")), Reply::Bulk(Vec::new()));
}

#[test]
fn new_db_has_requested_shards_and_is_empty() {
    let mut db = new_sharded_db(1000);
    assert_eq!(db.shard_count(), 1000);
    assert_eq!(db.handle(get("hello")), Reply::Null);
}

#[test]
fn new_db_with_no_shards() {
    let db = new_sharded_db(0);
    assert_eq!(db.shard_count(), 0);
    assert!(db.into_shards().is_empty());
}

#[test]
fn db_get_after_put_returns_value() {
    let mut db = new_sharded_db(16);
    assert_eq!(db.handle(put("hello", b"world")), Reply::Simple("OK".to_string()));
    assert_eq!(db.handle(get("hello")), Reply::Bulk(b"world".to_vec()));
}

#[test]
fn db_put_keeps_other_keys() {
    let mut db = new_sharded_db(16);
    for i in 0..50 {
        db.handle(put(&format!("k{}", i), format!("v{}", i).as_bytes()));
    }
    db.handle(put("k7", b"changed"));
    for i in 0..50 {
        let expected = if i == 7 { b"changed".to_vec() } else { format!("v{}", i).into_bytes() };
        assert_eq!(db.handle(get(&format!("k{}", i))), Reply::Bulk(expected));
    }
}

#[test]
fn db_last_put_wins() {
    let mut db = new_sharded_db(3);
    db.handle(put("x", b"1"));
    db.handle(put("x", b"2"));
    assert_eq!(db.handle(get("x")), Reply::Bulk(b"2".to_vec()));
}

#[test]
fn db_get_changes_nothing() {
    let mut db = new_sharded_db(5);
    db.handle(put("a", b"1"));
    assert_eq!(db.handle(get("b")), Reply::Null);
    assert_eq!(db.handle(get("a")), Reply::Bulk(b"1".to_vec()));
    assert_eq!(db.handle(get("a")), Reply::Bulk(b"1".to_vec()));
}

#[test]
fn db_key_lives_in_its_shard() {
    let n = 8usize;
    let mut db = new_sharded_db(n);
    db.handle(put("placed", b"v"));
    let index = db.shard_index(&"placed".to_string());
    assert_eq!(index, shard_for_key(&"placed".to_string(), n));
    let mut shards = db.into_shards();
    for (i, shard) in shards.iter_mut().enumerate() {
        let expected = if i == index { Reply::Bulk(b"v".to_vec()) } else { Reply::Null };
        assert_eq!(shard.handle(get("placed")), expected);
    }
}

#[test]
fn route_command_routes_get_and_put() {
    let n = 1000usize;
    let index = shard_for_key(&"hello".to_string(), n);
    assert_eq!(route_command(get("hello"), n), Ok(Request { shard: index, command: get("hello") }));
    assert_eq!(
        route_command(put("hello", b"world"), n),
        Ok(Request { shard: index, command: put("hello", b"world") })
    );
}

#[test]
fn route_command_refuses_unsupported() {
    let cmd = Command::Unsupported { description: "Publish".to_string() };
    assert_eq!(
        route_command(cmd, 4),
        Err(ProtocolError::Unsupported { description: "Publish".to_string() })
    );
}

#[test]
fn request_from_frame_get() {
    let n = 1000usize;
    let r = request_from_frame(command_frame(&["GET", "hello"]), n);
    let index = shard_for_key(&"hello".to_string(), n);
    assert_eq!(r, Ok(Request { shard: index, command: get("hello") }));
}

#[test]
fn request_from_frame_set() {
    let n = 10usize;
    let r = request_from_frame(command_frame(&["set", "hello", "world"]), n);
    let index = shard_for_key(&"hello".to_string(), n);
    assert_eq!(r, Ok(Request { shard: index, command: put("hello", b"world") }));
}

#[test]
fn request_from_frame_unsupported_command() {
    let r = request_from_frame(command_frame(&["frobnicate", "x"]), 4);
    match r {
        Err(ProtocolError::Unsupported { description }) => assert!(description.contains("frobnicate")),
        other => panic!("unexpected {:?}", other),
    }
}

#[test]
fn request_from_frame_publish_is_unsupported() {
    let r = request_from_frame(command_frame(&["publish", "chan", "msg"]), 4);
    assert!(matches!(r, Err(ProtocolError::Unsupported { .. })));
}

#[test]
fn request_from_frame_malformed() {
    let r = request_from_frame(RespFrame::Simple("GET".to_string()), 4);
    assert!(matches!(r, Err(ProtocolError::Malformed { .. })));
    let r = request_from_frame(command_frame(&["get"]), 4);
    assert!(matches!(r, Err(ProtocolError::Malformed { .. })));
}

#[test]
fn frame_to_shard_round_trip() {
    let n = 1000usize;
    let mut shards = new_sharded_db(n).into_shards();
    let req = request_from_frame(command_frame(&["set", "hello", "world"]), n).unwrap();
    assert_eq!(shards[req.shard].handle(req.command), Reply::Simple("OK".to_string()));
    let req = request_from_frame(command_frame(&["get", "hello"]), n).unwrap();
    assert_eq!(shards[req.shard].handle(req.command), Reply::Bulk(b"world".to_vec()));
}

#[test]
fn request_from_frame_accepts_simple_strings() {
    let frame = RespFrame::Array(vec![
        RespFrame::Simple("GET".to_string()),
        RespFrame::Simple("k".to_string()),
    ]);
    let index = shard_for_key(&"k".to_string(), 5);
    assert_eq!(request_from_frame(frame, 5), Ok(Request { shard: index, command: get("k") }));
}

#[test]
fn request_from_frame_rejects_non_string_keys() {
    for key in [
        RespFrame::Integer(5),
        RespFrame::Null,
        RespFrame::Error("e".to_string()),
        RespFrame::Array(vec![RespFrame::Bulk(b"k".to_vec())]),
    ] {
        let frame = RespFrame::Array(vec![RespFrame::Bulk(b"get".to_vec()), key]);
        assert!(matches!(request_from_frame(frame, 4), Err(ProtocolError::Malformed { .. })));
    }
}

#[test]
fn request_from_frame_malformed_message_names_the_frame() {
    match request_from_frame(RespFrame::Integer(42), 4) {
        Err(ProtocolError::Malformed { message }) => assert!(message.contains("42")),
        other => panic!("unexpected {:?}", other),
    }
}

#[test]
fn request_from_frame_keeps_binary_values() {
    let frame = RespFrame::Array(vec![
        RespFrame::Bulk(b"set".to_vec()),
        RespFrame::Bulk(b"bin".to_vec()),
        RespFrame::Bulk(vec![0u8, 255u8, 10u8]),
    ]);
    let r = request_from_frame(frame, 3).unwrap();
    assert_eq!(r.command, Command::Put { key: "bin".to_string(), value: vec![0u8, 255u8, 10u8] });
}

#[test]
fn request_from_frame_set_with_expiry() {
    let r = request_from_frame(command_frame(&["set", "k", "v", "px", "100"]), 3).unwrap();
    assert_eq!(r.command, put("k", b"v"));
}

#[test]
fn served_keeps_get_and_set() {
    assert_eq!(served(Decoded::Get { key: "k".to_string() }), get("k"));
    let set = Decoded::SetKey {
        key: "k".to_string(),
        value: b"v".to_vec(),
        expire: Some(Duration::from_millis(100)),
    };
    assert_eq!(served(set), put("k", b"v"));
}

#[test]
fn served_refuses_the_other_commands() {
    for d in [
        Decoded::Publish { text: "p".to_string() },
        Decoded::Subscribe { text: "s".to_string() },
        Decoded::Unsubscribe { text: "u".to_string() },
        Decoded::Unknown { text: "x".to_string() },
    ] {
        let text = match &d {
            Decoded::Publish { text }
            | Decoded::Subscribe { text }
            | Decoded::Unsubscribe { text }
            | Decoded::Unknown { text } => text.clone(),
            _ => unreachable!(),
        };
        assert_eq!(served(d), Command::Unsupported { description: text });
    }
}

#[test]
fn decode_command_get_and_set() {
    assert_eq!(decode_command(command_frame(&["get", "k"])), Ok(get("k")));
    assert_eq!(decode_command(command_frame(&["set", "k", "v", "ex", "10"])), Ok(put("k", b"v")));
}

#[test]
fn decode_command_describes_unsupported_commands() {
    match decode_command(command_frame(&["publish", "chan", "msg"])) {
        Ok(Command::Unsupported { description }) => assert!(description.starts_with("Publish(")),
        other => panic!("unexpected {:?}", other),
    }
    match decode_command(command_frame(&["subscribe", "chan"])) {
        Ok(Command::Unsupported { description }) => assert!(description.starts_with("Subscribe(")),
        other => panic!("unexpected {:?}", other),
    }
    match decode_command(command_frame(&["unsubscribe"])) {
        Ok(Command::Unsupported { description }) => assert!(description.starts_with("Unsubscribe(")),
        other => panic!("unexpected {:?}", other),
    }
    match decode_command(command_frame(&["bogus"])) {
        Ok(Command::Unsupported { description }) => assert!(description.starts_with("Unknown(")),
        other => panic!("unexpected {:?}", other),
    }
}

#[test]
fn decode_command_malformed() {
    assert!(matches!(decode_command(RespFrame::Null), Err(ProtocolError::Malformed { .. })));
    assert!(matches!(decode_command(command_frame(&["get", "a", "b"])), Err(ProtocolError::Malformed { .. })));
}
