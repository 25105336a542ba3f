//! Socket frames as both sides of the relay read them.

use vstd::prelude::*;

verus! {

/// One frame received from the socket.
#[derive(Debug, PartialEq, Eq)]
pub enum Frame {
    /// A text frame and its payload.
    Text(String),
    /// A binary frame and its payload.
    Binary(Vec<u8>),
    /// A ping control frame.
    Ping,
    /// A pong control frame.
    Pong,
    /// A close control frame.
    Close,
}

/// The value of a [`Frame`].
pub enum FrameView {
    Text(Seq<char>),
    Binary(Seq<u8>),
    Ping,
    Pong,
    Close,
}

impl View for Frame {
    type V = FrameView;

    open spec fn view(&self) -> FrameView {
        match self {
            Frame::Text(text) => FrameView::Text(text@),
            Frame::Binary(bytes) => FrameView::Binary(bytes@),
            Frame::Ping => FrameView::Ping,
            Frame::Pong => FrameView::Pong,
            Frame::Close => FrameView::Close,
        }
    }
}

impl Clone for Frame {
    fn clone(&self) -> (copy: Frame)
        ensures
            copy@ == self@,
    {
        match self {
            Frame::Text(text) => Frame::Text(text.clone()),
            Frame::Binary(bytes) => Frame::Binary(bytes.clone()),
            Frame::Ping => Frame::Ping,
            Frame::Pong => Frame::Pong,
            Frame::Close => Frame::Close,
        }
    }
}

} // verus!
