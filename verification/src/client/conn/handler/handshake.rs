//! The page's side of the handshake.

use vstd::prelude::*;
use crate::client::conn::handler::v1::login::LoginHandler;
use crate::client::conn::handler::{Handler, NextHandler};
use crate::client::err::{Error, ErrorView};
use crate::protocol::handshake::{HelloMessage, HelloResponseMessage};
use crate::protocol::v1::VERSION;

verus! {

/// The handler of the handshake.
#[derive(Clone, Copy, Debug, PartialEq, Eq, Structural)]
pub struct HandshakeHandler {}

/// The error of a handshake that settles no protocol.
pub open spec fn no_protocol(should_reload: bool) -> ErrorView {
    ErrorView::ProtocolError { details: "No compatible protocol version"@, should_reload }
}

/// The error of a message that cannot be read.
pub open spec fn unreadable() -> ErrorView {
    ErrorView::ProtocolError { details: "Desserialisation error"@, should_reload: false }
}

/// The error of a message that cannot be written.
pub open spec fn unwritable() -> ErrorView {
    ErrorView::ImplError { details: "Serialisation failed"@ }
}

impl HandshakeHandler {
    /// The hello that opens the handshake: the page speaks protocol 1.
    pub fn on_start(&self) -> (r: HelloMessage)
        ensures
            r.known_protocols@ == seq![1u32],
    {
        let mut known_protocols: Vec<u32> = Vec::new();
        known_protocols.push(1);
        HelloMessage { known_protocols }
    }

    /// The server's answer to the hello, or a text that does not read as
    /// one. If the server has settled on protocol 1, the login is next.
    /// Anything else is an error; the server's advice to load the page anew
    /// is passed on.
    pub fn on_text(&self, resp: Option<HelloResponseMessage>) -> (r: Result<NextHandler, Error>)
        ensures
            match resp {
                Some(HelloResponseMessage::Success { protocol_version }) => if protocol_version
                    == VERSION {
                    r == Ok::<NextHandler, Error>(Some(Handler::Login(LoginHandler {  })))
                } else {
                    r is Err && r->Err_0@ == no_protocol(false)
                },
                Some(HelloResponseMessage::Failure { should_reload }) => r is Err && r->Err_0@
                    == no_protocol(should_reload),
                None => r is Err && r->Err_0@ == unreadable(),
            },
    {
        match resp {
            Some(HelloResponseMessage::Success { protocol_version }) => {
                if protocol_version == VERSION {
                    Ok(Some(Handler::Login(LoginHandler {  })))
                } else {
                    Err(
                        Error::ProtocolError {
                            details: String::from_str("No compatible protocol version"),
                            should_reload: false,
                        },
                    )
                }
            },
            Some(HelloResponseMessage::Failure { should_reload }) => Err(
                Error::ProtocolError {
                    details: String::from_str("No compatible protocol version"),
                    should_reload,
                },
            ),
            None => Err(
                Error::ProtocolError {
                    details: String::from_str("Desserialisation error"),
                    should_reload: false,
                },
            ),
        }
    }
}

/// The error of a message that cannot be written.
pub fn serialisation_failed() -> (r: Error)
    ensures
        r@ == unwritable(),
{
    Error::ImplError { details: String::from_str("Serialisation failed") }
}

/// The error of a message that the socket did not take.
pub fn send_failed() -> (r: Error)
    ensures
        r@ == (ErrorView::ConnectionError { details: "Unable to send message to the server"@ }),
{
    Error::ConnectionError { details: String::from_str("Unable to send message to the server") }
}

} // verus!
