//! The error report that the server sends to a peer.

use vstd::prelude::*;

pub mod code;

verus! {

/// What the server tells a peer about a failed request, with hints on how to
/// recover.
#[derive(Clone, Debug, PartialEq, Eq)]
pub struct ErrorMessage {
    pub error_code: Option<u32>,
    pub error_description: String,
    pub should_reload: bool,
    pub should_reconnect: bool,
    pub should_handshake: bool,
}

/// An `ErrorMessage` as a mathematical value.
pub struct ErrorMessageView {
    pub error_code: Option<u32>,
    pub error_description: Seq<char>,
    pub should_reload: bool,
    pub should_reconnect: bool,
    pub should_handshake: bool,
}

impl View for ErrorMessage {
    type V = ErrorMessageView;

    open spec fn view(&self) -> ErrorMessageView {
        ErrorMessageView {
            error_code: self.error_code,
            error_description: self.error_description@,
            should_reload: self.should_reload,
            should_reconnect: self.should_reconnect,
            should_handshake: self.should_handshake,
        }
    }
}

impl ErrorMessageView {
    /// The report of an unknown server error, with no hint set.
    pub open spec fn unknown() -> ErrorMessageView {
        ErrorMessageView {
            error_code: Some(code::server::SERVER_ERROR),
            error_description: "Unknown server error"@,
            should_reload: false,
            should_reconnect: false,
            should_handshake: false,
        }
    }
}

impl Default for ErrorMessage {
    fn default() -> (r: ErrorMessage)
        ensures
            r@ == ErrorMessageView::unknown(),
    {
        ErrorMessage {
            error_code: Some(code::server::SERVER_ERROR),
            error_description: String::from_str("Unknown server error"),
            should_reload: false,
            should_reconnect: false,
            should_handshake: false,
        }
    }
}

} // verus!
