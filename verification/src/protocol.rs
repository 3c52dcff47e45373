//! Commands and replies of the store, and their meaning over a map.

use vstd::prelude::*;

verus! {

/// A command received from a client.
#[derive(Debug, PartialEq, Eq)]
pub enum Command {
    /// Read the value stored under `key` (Redis `GET`).
    Get { key: String },
    /// Store `value` under `key`, replacing what was there (Redis `SET`).
    Put { key: String, value: Vec<u8> },
    /// Any command the store does not serve; `description` names it.
    Unsupported { description: String },
}

/// The mathematical content of a command.
pub enum CommandView {
    Get { key: Seq<char> },
    Put { key: Seq<char>, value: Seq<u8> },
    Unsupported { description: Seq<char> },
}

impl View for Command {
    type V = CommandView;

    open spec fn view(&self) -> CommandView {
        match self {
            Command::Get { key } => CommandView::Get { key: key@ },
            Command::Put { key, value } => CommandView::Put { key: key@, value: value@ },
            Command::Unsupported { description } => CommandView::Unsupported { description: description@ },
        }
    }
}

/// The key that the content of a served command names.
pub open spec fn command_view_key(cmd: CommandView) -> Seq<char> {
    match cmd {
        CommandView::Get { key } => key,
        CommandView::Put { key, .. } => key,
        CommandView::Unsupported { .. } => Seq::empty(),
    }
}

/// A reply sent back to the client.
#[derive(Debug, PartialEq, Eq)]
pub enum Reply {
    /// A simple status string.
    Simple(String),
    /// A stored value.
    Bulk(Vec<u8>),
    /// No value.
    Null,
}

/// The mathematical content of a reply.
pub enum ReplyView {
    Simple(Seq<char>),
    Bulk(Seq<u8>),
    Null,
}

impl View for Reply {
    type V = ReplyView;

    open spec fn view(&self) -> ReplyView {
        match self {
            Reply::Simple(s) => ReplyView::Simple(s@),
            Reply::Bulk(b) => ReplyView::Bulk(b@),
            Reply::Null => ReplyView::Null,
        }
    }
}

/// The store's contents as a map from key characters to value bytes.
pub type Store = Map<Seq<char>, Seq<u8>>;

/// Whether the store serves `cmd`.
pub open spec fn is_supported(cmd: Command) -> bool {
    !(cmd is Unsupported)
}

/// The key that a served command names.
pub open spec fn command_key(cmd: Command) -> Seq<char> {
    match cmd {
        Command::Get { key } => key@,
        Command::Put { key, .. } => key@,
        Command::Unsupported { .. } => Seq::empty(),
    }
}

/// The contents of a store after `cmd`: a `PUT` binds its key to its value,
/// anything else leaves the store as it was.
pub open spec fn store_after(m: Store, cmd: Command) -> Store {
    match cmd {
        Command::Put { key, value } => m.insert(key@, value@),
        _ => m,
    }
}

/// The reply to `cmd` on a store holding `m`: `OK` to a `PUT`, the stored
/// value to a `GET` of a present key, and `Null` to a `GET` of an absent one.
pub open spec fn reply_to(m: Store, cmd: Command) -> ReplyView {
    match cmd {
        Command::Put { .. } => ReplyView::Simple("OK"@),
        Command::Get { key } => if m.contains_key(key@) {
            ReplyView::Bulk(m[key@])
        } else {
            ReplyView::Null
        },
        Command::Unsupported { .. } => ReplyView::Null,
    }
}

} // verus!
