//! The frames that travel over one connection.

use vstd::prelude::*;

verus! {

/// What a frame carries, as mathematics: bytes or characters.
pub enum FrameView {
    Binary(Seq<u8>),
    Text(Seq<char>),
}

/// A frame received from the client.
#[derive(Debug, PartialEq, Eq)]
pub enum InboundFrame {
    /// Raw audio.
    Binary(Vec<u8>),
    /// A control message, a command or plain text.
    Text(String),
}

/// A frame to be sent to the client.
#[derive(Debug, PartialEq, Eq)]
pub enum OutboundFrame {
    Text(String),
    /// Synthesized audio.
    Binary(Vec<u8>),
}

impl View for InboundFrame {
    type V = FrameView;

    open spec fn view(&self) -> FrameView {
        match self {
            InboundFrame::Binary(bytes) => FrameView::Binary(bytes@),
            InboundFrame::Text(text) => FrameView::Text(text@),
        }
    }
}

impl View for OutboundFrame {
    type V = FrameView;

    open spec fn view(&self) -> FrameView {
        match self {
            OutboundFrame::Text(text) => FrameView::Text(text@),
            OutboundFrame::Binary(bytes) => FrameView::Binary(bytes@),
        }
    }
}

} // verus!
