//! Frames of the Redis wire protocol, held as plain values.

use vstd::prelude::*;

verus! {

/// A frame of the Redis protocol.
#[derive(Debug, PartialEq, Eq)]
pub enum RespFrame {
    Simple(String),
    Error(String),
    Integer(u64),
    Bulk(Vec<u8>),
    Null,
    Array(Vec<RespFrame>),
}

/// The mathematical content of a frame.
pub enum RespFrameView {
    Simple(Seq<char>),
    Error(Seq<char>),
    Integer(u64),
    Bulk(Seq<u8>),
    Null,
    Array(Seq<RespFrameView>),
}

/// The content of a frame.
pub open spec fn frame_view(frame: RespFrame) -> RespFrameView
    decreases frame, 1nat,
{
    match frame {
        RespFrame::Simple(s) => RespFrameView::Simple(s@),
        RespFrame::Error(s) => RespFrameView::Error(s@),
        RespFrame::Integer(n) => RespFrameView::Integer(n),
        RespFrame::Bulk(b) => RespFrameView::Bulk(b@),
        RespFrame::Null => RespFrameView::Null,
        RespFrame::Array(items) => RespFrameView::Array(frames_view(items@)),
    }
}

/// The contents of a sequence of frames, in order.
pub open spec fn frames_view(frames: Seq<RespFrame>) -> Seq<RespFrameView>
    decreases frames, 0nat,
{
    if frames.len() == 0 {
        Seq::empty()
    } else {
        frames_view(frames.subrange(0, frames.len() - 1)).push(frame_view(frames[frames.len() - 1]))
    }
}

/// The content of each frame of a sequence is the content of the frame at
/// that place.
pub proof fn lemma_frames_view_index(frames: Seq<RespFrame>)
    ensures
        frames_view(frames).len() == frames.len(),
        forall|j: int| 0 <= j < frames.len() ==> #[trigger] frames_view(frames)[j] == frames[j]@,
    decreases frames.len(),
{
    if frames.len() > 0 {
        let front = frames.subrange(0, frames.len() - 1);
        lemma_frames_view_index(front);
        assert forall|j: int| 0 <= j < frames.len() implies #[trigger] frames_view(frames)[j] == frames[j]@ by {
            if j < frames.len() - 1 {
                assert(front[j] == frames[j]);
            }
        }
    }
}

impl View for RespFrame {
    type V = RespFrameView;

    open spec fn view(&self) -> RespFrameView {
        frame_view(*self)
    }
}

} // verus!
