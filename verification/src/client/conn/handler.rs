//! What the page makes of the server's messages, phase by phase.

use vstd::prelude::*;
use crate::client::conn::handler::handshake::HandshakeHandler;
use crate::client::conn::handler::v1::login::LoginHandler;
use crate::client::conn::handler::v1::running::RunningHandler;
use crate::client::err::{Error, ErrorView};

pub mod handshake;
pub mod v1;

verus! {

/// The handler of a phase of the connection.
#[derive(Clone, Debug, PartialEq, Eq)]
pub enum Handler {
    Handshake(HandshakeHandler),
    Login(LoginHandler),
    Running(RunningHandler),
}

/// The handler to go on with, if the phase changes.
pub type NextHandler = Option<Handler>;

/// The kinds of frame from the server.
#[derive(Clone, Copy, Debug, PartialEq, Eq, Structural)]
pub enum FrameKind {
    Text,
    ArrayBuffer,
    Blob,
}

/// The error of a frame of a kind that the current phase does not expect.
pub open spec fn unexpected(kind: FrameKind) -> ErrorView {
    ErrorView::ProtocolError {
        details: match kind {
            FrameKind::Text => "Unexpected text message"@,
            FrameKind::ArrayBuffer => "Unexpected array buffer message"@,
            FrameKind::Blob => "Unexpected blob message"@,
        },
        should_reload: false,
    }
}

/// The error of a frame of a kind that the current phase does not expect.
pub fn unexpected_frame(kind: FrameKind) -> (r: Error)
    ensures
        r@ == unexpected(kind),
{
    Error::ProtocolError {
        details: match kind {
            FrameKind::Text => String::from_str("Unexpected text message"),
            FrameKind::ArrayBuffer => String::from_str("Unexpected array buffer message"),
            FrameKind::Blob => String::from_str("Unexpected blob message"),
        },
        should_reload: false,
    }
}

impl Handler {
    /// Whether the handler of the phase expects frames of a kind: text
    /// during the handshake, array buffers after it, blobs never.
    pub fn expects(&self, kind: FrameKind) -> (r: bool)
        ensures
            r == match (*self, kind) {
                (Handler::Handshake(_), FrameKind::Text) => true,
                (Handler::Login(_), FrameKind::ArrayBuffer) => true,
                (Handler::Running(_), FrameKind::ArrayBuffer) => true,
                _ => false,
            },
    {
        match (self, kind) {
            (Handler::Handshake(_), FrameKind::Text) => true,
            (Handler::Login(_), FrameKind::ArrayBuffer) => true,
            (Handler::Running(_), FrameKind::ArrayBuffer) => true,
            _ => false,
        }
    }
}

} // verus!
