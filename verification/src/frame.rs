//! Frames: the units of application data that travel over a connection.

use vstd::prelude::*;

verus! {

/// One frame of application data, as text or as raw bytes.
#[derive(Debug, Clone, PartialEq, Eq)]
pub enum Frame {
    Text(String),
    Binary(Vec<u8>),
}

/// What a frame holds, as mathematical sequences.
pub enum FrameView {
    Text(Seq<char>),
    Binary(Seq<u8>),
}

impl View for Frame {
    type V = FrameView;

    open spec fn view(&self) -> FrameView {
        match self {
            Frame::Text(text) => FrameView::Text(text@),
            Frame::Binary(bytes) => FrameView::Binary(bytes@),
        }
    }
}

impl Frame {
    /// A text frame with the given content.
    pub fn text(content: &str) -> (frame: Frame)
        ensures
            frame@ == FrameView::Text(content@),
    {
        Frame::Text(content.to_owned())
    }
}

} // verus!
