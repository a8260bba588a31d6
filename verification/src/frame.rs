//! What a connection's write side carries besides gateway events: the
//! messages of the socket underneath, and the frame that closes it.

use vstd::prelude::*;

verus! {

/// The code that a close frame gives as the reason for closing.
#[derive(Clone, Copy, Debug, PartialEq, Eq, Structural)]
pub enum CloseCode {
    /// The purpose of the connection is fulfilled.
    Normal,
    /// A code of the gateway's own, from the range left to applications.
    Library(u16),
}

impl CloseCode {
    /// The number that stands for the code on the wire.
    pub open spec fn spec_code(self) -> u16 {
        match self {
            CloseCode::Normal => 1000,
            CloseCode::Library(code) => code,
        }
    }

    /// The number that stands for the code on the wire.
    #[verifier::when_used_as_spec(spec_code)]
    pub fn code(self) -> (number: u16)
        ensures
            number == self.spec_code(),
    {
        match self {
            CloseCode::Normal => 1000,
            CloseCode::Library(code) => code,
        }
    }
}

/// The frame that closes a socket: why, as a code and in words.
#[derive(Debug)]
pub struct CloseFrame {
    pub code: CloseCode,
    pub reason: String,
}

/// A `CloseFrame` as mathematics.
pub struct CloseFrameView {
    pub code: CloseCode,
    pub reason: Seq<char>,
}

impl DeepView for CloseFrame {
    type V = CloseFrameView;

    open spec fn deep_view(&self) -> CloseFrameView {
        CloseFrameView { code: self.code, reason: self.reason@ }
    }
}

impl View for CloseFrame {
    type V = CloseFrameView;

    open spec fn view(&self) -> CloseFrameView {
        self.deep_view()
    }
}

/// A message of the socket under a connection.
#[derive(Debug)]
pub enum Message {
    Text(String),
    Binary(Vec<u8>),
    Ping(Vec<u8>),
    Pong(Vec<u8>),
    Close(Option<CloseFrame>),
}

/// A `Message` as mathematics.
pub enum MessageView {
    Text(Seq<char>),
    Binary(Seq<u8>),
    Ping(Seq<u8>),
    Pong(Seq<u8>),
    Close(Option<CloseFrameView>),
}

impl DeepView for Message {
    type V = MessageView;

    open spec fn deep_view(&self) -> MessageView {
        match self {
            Message::Text(text) => MessageView::Text(text@),
            Message::Binary(bytes) => MessageView::Binary(bytes@),
            Message::Ping(bytes) => MessageView::Ping(bytes@),
            Message::Pong(bytes) => MessageView::Pong(bytes@),
            Message::Close(frame) => MessageView::Close(frame.deep_view()),
        }
    }
}

impl View for Message {
    type V = MessageView;

    open spec fn view(&self) -> MessageView {
        self.deep_view()
    }
}

impl Message {
    /// Whether the message closes the socket.
    pub fn is_close(&self) -> (closing: bool)
        ensures
            closing == (self@ is Close),
    {
        match self {
            Message::Close(_) => true,
            _ => false,
        }
    }
}

} // verus!
