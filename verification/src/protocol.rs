//! The messages exchanged with a peer.
//!
//! * `handshake`: sent as JSON text, used to choose the protocol that
//!   follows. Never changes.
//! * `error`: the error report, sent as JSON text by the server. New codes
//!   may be added, existing ones keep their meaning.
//! * `v1`: the first versioned protocol, sent as binary frames. A finished
//!   version is frozen; the handshake picks the highest one both sides know.

pub mod error;
pub mod handshake;
pub mod v1;
