//! The server side: the lobby, the game rooms and the per-connection clients,
//! with the messages they send one another.

pub mod actor_msg;
pub mod cli;
pub mod client;
pub mod error;
pub mod game;
pub mod lobby;
pub mod log;
pub mod user;
