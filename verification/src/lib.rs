//! Coordination engine of a two-seat online game service.
//!
//! Clients connect over a message channel, agree on a protocol version,
//! establish an identity, browse and create game rooms in a shared lobby, join
//! a room and exchange game actions. Each of the three long-lived parts (the
//! per-connection client, the lobby, a game room) is a state machine here: a
//! value that takes one event at a time and answers with its new state and
//! the messages to deliver. Sockets, timers and mailboxes live outside.

pub mod rules;
pub mod protocol;
pub mod uid;
pub mod chance;
pub mod text;
pub mod server;
pub mod ordered;
pub mod client;
