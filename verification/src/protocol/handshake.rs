//! The handshake: the first exchange on a new connection.

use vstd::prelude::*;

verus! {

/// The client's opening message: the protocol versions it can speak.
#[derive(Clone, Debug, PartialEq, Eq)]
pub struct HelloMessage {
    pub known_protocols: Vec<u32>,
}

/// The server's answer to a `HelloMessage`.
#[derive(Clone, Copy, Debug, PartialEq, Eq, Structural)]
pub enum HelloResponseMessage {
    Success { protocol_version: u32 },
    Failure { should_reload: bool },
}

/// Either side announces that it is leaving.
#[derive(Clone, Copy, Debug, PartialEq, Eq, Structural)]
pub enum DisconnectMessage {
    FromClient,
    FromServer,
}

} // verus!
