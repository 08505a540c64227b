//! The registry of error codes, one module per class of error.

pub mod game;
pub mod lobby;
pub mod protocol;
pub mod server;
