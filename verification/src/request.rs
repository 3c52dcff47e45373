//! Decoding a frame into a command and routing it to its shard.

use crate::hashing::{shard_for_key, shard_of};
use crate::frame::{frames_view, lemma_frames_view_index, RespFrame, RespFrameView};
use crate::protocol::{command_key, command_view_key, is_supported, Command, CommandView};
use core::time::Duration;
use mini_redis::Command as RedisCommand;
use mini_redis::Frame;
use vstd::prelude::*;

verus! {

/// The frame type of `mini_redis`, opaque to the verifier.
#[verifier::external_type_specification]
#[verifier::external_body]
pub struct ExFrame(mini_redis::Frame);

/// What a `mini_redis::Frame` holds, as the content of a frame.
pub uninterp spec fn frame_contents(frame: Frame) -> RespFrameView;

/// Builds `mini_redis::Frame::Simple`.
///
/// Trusted: the frame holds the given text as a simple frame.
#[verifier::external_body]
fn outside_simple(text: String) -> (result: Frame)
    ensures
        frame_contents(result) == RespFrameView::Simple(text@),
{
    Frame::Simple(text)
}

/// Builds `mini_redis::Frame::Error`.
///
/// Trusted: the frame holds the given text as an error frame.
#[verifier::external_body]
fn outside_error(text: String) -> (result: Frame)
    ensures
        frame_contents(result) == RespFrameView::Error(text@),
{
    Frame::Error(text)
}

/// Builds `mini_redis::Frame::Integer`.
///
/// Trusted: the frame holds the given integer.
#[verifier::external_body]
fn outside_integer(n: u64) -> (result: Frame)
    ensures
        frame_contents(result) == RespFrameView::Integer(n),
{
    Frame::Integer(n)
}

/// Builds `mini_redis::Frame::Bulk` of `bytes::Bytes::from` the given bytes.
///
/// Trusted: the frame holds the given bytes as a bulk frame.
#[verifier::external_body]
fn outside_bulk(data: Vec<u8>) -> (result: Frame)
    ensures
        frame_contents(result) == RespFrameView::Bulk(data@),
{
    Frame::Bulk(bytes::Bytes::from(data))
}

/// Builds `mini_redis::Frame::Null`.
///
/// Trusted: the frame is the null frame.
#[verifier::external_body]
fn outside_null() -> (result: Frame)
    ensures
        frame_contents(result) == RespFrameView::Null,
{
    Frame::Null
}

/// Builds `mini_redis::Frame::Array`.
///
/// Trusted: the frame holds, in order, what the given frames hold.
#[verifier::external_body]
fn outside_array(items: Vec<Frame>) -> (result: Frame)
    ensures
        frame_contents(result) == RespFrameView::Array(items@.map_values(|f: Frame| frame_contents(f))),
{
    Frame::Array(items)
}

/// The `mini_redis` frame with the same content as `frame`.
fn to_outside_frame(frame: &RespFrame) -> (result: Frame)
    ensures
        frame_contents(result) == frame@,
    decreases frame,
{
    match frame {
        RespFrame::Simple(text) => outside_simple(text.clone()),
        RespFrame::Error(text) => outside_error(text.clone()),
        RespFrame::Integer(n) => outside_integer(*n),
        RespFrame::Bulk(data) => outside_bulk(data.clone()),
        RespFrame::Null => outside_null(),
        RespFrame::Array(items) => {
            let mut converted: Vec<Frame> = Vec::new();
            let mut i: usize = 0;
            while i < items.len()
                invariant
                    *frame == RespFrame::Array(*items),
                    i <= items@.len(),
                    converted@.len() == i,
                    forall|j: int| 0 <= j < i ==> #[trigger] frame_contents(converted@[j]) == items@[j]@,
                decreases items@.len() - i,
            {
                assert(decreases_to!(*frame => items@[i as int])) by {
                    assert(decreases_to!(*frame => frame->Array_0));
                    assert(decreases_to!(frame->Array_0 => frame->Array_0@));
                    assert(decreases_to!(items@ => items@[i as int]));
                }
                let item = to_outside_frame(&items[i]);
                converted.push(item);
                i = i + 1;
            }
            let ghost contents = converted@.map_values(|f: Frame| frame_contents(f));
            let result = outside_array(converted);
            proof {
                lemma_frames_view_index(items@);
            }
            assert(contents =~= frames_view(items@));
            result
        },
    }
}

/// A command as `mini_redis` decodes it, one variant for each of its
/// commands (`SetKey` is its `SET`). `text` is the `Debug` text of the
/// decoded command.
#[derive(Debug, PartialEq, Eq)]
pub enum Decoded {
    Get { key: String },
    SetKey { key: String, value: Vec<u8>, expire: Option<Duration> },
    Publish { text: String },
    Subscribe { text: String },
    Unsubscribe { text: String },
    Unknown { text: String },
}

/// The mathematical content of a decoded command.
pub enum DecodedView {
    Get { key: Seq<char> },
    SetKey { key: Seq<char>, value: Seq<u8>, expire: Option<Duration> },
    Publish { text: Seq<char> },
    Subscribe { text: Seq<char> },
    Unsubscribe { text: Seq<char> },
    Unknown { text: Seq<char> },
}

impl View for Decoded {
    type V = DecodedView;

    open spec fn view(&self) -> DecodedView {
        match self {
            Decoded::Get { key } => DecodedView::Get { key: key@ },
            Decoded::SetKey { key, value, expire } => DecodedView::SetKey {
                key: key@,
                value: value@,
                expire: *expire,
            },
            Decoded::Publish { text } => DecodedView::Publish { text: text@ },
            Decoded::Subscribe { text } => DecodedView::Subscribe { text: text@ },
            Decoded::Unsubscribe { text } => DecodedView::Unsubscribe { text: text@ },
            Decoded::Unknown { text } => DecodedView::Unknown { text: text@ },
        }
    }
}

/// What `mini_redis::Command::from_frame` makes of a frame with the given
/// content: the decoded command, or the `Debug` text of its error.
pub uninterp spec fn decoded(frame: RespFrameView) -> Result<DecodedView, Seq<char>>;

/// Calls `mini_redis::Command::from_frame` and converts what it returns, one
/// arm for each of its commands: keys, values and expiry are moved over, the
/// other commands keep their `Debug` text, and an error becomes its `Debug`
/// text.
///
/// Trusted: the result depends only on what the frame holds, and is what
/// `decoded` names for it.
#[verifier::external_body]
fn decode_frame(frame: Frame) -> (result: Result<Decoded, String>)
    ensures
        match result {
            Ok(d) => decoded(frame_contents(frame)) == Ok::<DecodedView, Seq<char>>(d@),
            Err(message) => decoded(frame_contents(frame)) == Err::<DecodedView, Seq<char>>(message@),
        },
{
    let command = match RedisCommand::from_frame(frame) {
        Ok(command) => command,
        Err(e) => return Err(format!("{e:?}")),
    };
    Ok(match command {
        RedisCommand::Get(c) => Decoded::Get { key: c.key().to_string() },
        RedisCommand::Set(c) => {
            Decoded::SetKey { key: c.key().to_string(), value: c.value().to_vec(), expire: c.expire() }
        },
        c @ RedisCommand::Publish(_) => Decoded::Publish { text: format!("{c:?}") },
        c @ RedisCommand::Subscribe(_) => Decoded::Subscribe { text: format!("{c:?}") },
        c @ RedisCommand::Unsubscribe(_) => Decoded::Unsubscribe { text: format!("{c:?}") },
        c @ RedisCommand::Unknown(_) => Decoded::Unknown { text: format!("{c:?}") },
    })
}

/// The command that the store makes of a decoded one: `GET` and `SET` are
/// served (the expiry of a `SET` is not kept), every other command is
/// unsupported, described by its text.
pub open spec fn served_view(d: DecodedView) -> CommandView {
    match d {
        DecodedView::Get { key } => CommandView::Get { key },
        DecodedView::SetKey { key, value, .. } => CommandView::Put { key, value },
        DecodedView::Publish { text } => CommandView::Unsupported { description: text },
        DecodedView::Subscribe { text } => CommandView::Unsupported { description: text },
        DecodedView::Unsubscribe { text } => CommandView::Unsupported { description: text },
        DecodedView::Unknown { text } => CommandView::Unsupported { description: text },
    }
}

/// Turns a decoded command into the store's command: `GET` and `SET` are
/// served, every other command is unsupported.
pub fn served(d: Decoded) -> (c: Command)
    ensures
        c@ == served_view(d@),
{
    match d {
        Decoded::Get { key } => Command::Get { key },
        Decoded::SetKey { key, value, .. } => Command::Put { key, value },
        Decoded::Publish { text } => Command::Unsupported { description: text },
        Decoded::Subscribe { text } => Command::Unsupported { description: text },
        Decoded::Unsubscribe { text } => Command::Unsupported { description: text },
        Decoded::Unknown { text } => Command::Unsupported { description: text },
    }
}

/// Why a frame yields no request.
#[derive(Debug, PartialEq, Eq)]
pub enum ProtocolError {
    /// The frame is no well-formed command; `message` is the parser's account.
    Malformed { message: String },
    /// The frame is a command that the store does not serve.
    Unsupported { description: String },
}

/// A served command together with the shard that holds its key.
#[derive(Debug, PartialEq, Eq)]
pub struct Request {
    pub shard: usize,
    pub command: Command,
}

/// Routes a decoded command: a `GET` or `PUT` goes to the shard of its key
/// among `num_shards`; any other command is refused as unsupported.
pub fn route_command(cmd: Command, num_shards: usize) -> (r: Result<Request, ProtocolError>)
    requires
        num_shards > 0,
    ensures
        match cmd {
            Command::Unsupported { description } => r == Err::<Request, ProtocolError>(
                ProtocolError::Unsupported { description },
            ),
            _ => r == Ok::<Request, ProtocolError>(
                Request { shard: shard_of(command_key(cmd), num_shards as nat) as usize, command: cmd },
            ),
        },
        r matches Ok(req) ==> req.shard < num_shards && is_supported(req.command),
{
    let shard = match &cmd {
        Command::Get { key } => shard_for_key(key, num_shards),
        Command::Put { key, .. } => shard_for_key(key, num_shards),
        Command::Unsupported { description } => {
            return Err(ProtocolError::Unsupported { description: description.clone() });
        },
    };
    Ok(Request { shard, command: cmd })
}

/// What a request for a decoded command, among `num_shards` shards, must
/// be: the refusal of an unsupported command with its description, or the
/// command itself routed to the shard of its key.
pub open spec fn answers(r: Result<Request, ProtocolError>, cmd: CommandView, num_shards: nat) -> bool {
    match cmd {
        CommandView::Unsupported { description } => (r matches Err(ProtocolError::Unsupported { description: d })
            && d@ == description),
        _ => (r matches Ok(req) && req.command@ == cmd && req.shard == shard_of(command_view_key(cmd), num_shards)),
    }
}

/// Decodes a frame into the store's command.
///
/// A frame the decoder rejects gives `Malformed` with the decoder's message;
/// otherwise the decoded command comes back as `served` makes it.
pub fn decode_command(frame: RespFrame) -> (r: Result<Command, ProtocolError>)
    ensures
        match decoded(frame@) {
            Ok(d) => (r matches Ok(c) && c@ == served_view(d)),
            Err(message) => (r matches Err(ProtocolError::Malformed { message: m }) && m@ == message),
        },
{
    let outside = to_outside_frame(&frame);
    match decode_frame(outside) {
        Ok(d) => Ok(served(d)),
        Err(message) => Err(ProtocolError::Malformed { message }),
    }
}

/// Decodes a frame into a command and routes it among `num_shards` shards.
///
/// A frame the decoder rejects gives `Malformed` with the decoder's message;
/// a decoded `GET` or `SET` gives a request for the shard of its key; every
/// other decoded command gives `Unsupported`.
pub fn request_from_frame(frame: RespFrame, num_shards: usize) -> (r: Result<Request, ProtocolError>)
    requires
        num_shards > 0,
    ensures
        match decoded(frame@) {
            Ok(d) => answers(r, served_view(d), num_shards as nat),
            Err(message) => (r matches Err(ProtocolError::Malformed { message: m }) && m@ == message),
        },
        r matches Ok(req) ==> {
            &&& is_supported(req.command)
            &&& req.shard == shard_of(command_key(req.command), num_shards as nat)
            &&& req.shard < num_shards
        },
{
    match decode_command(frame) {
        Ok(cmd) => route_command(cmd, num_shards),
        Err(e) => Err(e),
    }
}

} // verus!
