//! The peer broke the protocol: 100 to 199.

use vstd::prelude::*;

verus! {

pub const PROTOCOL_ERROR: u32 = 100;

pub const NO_PROTOCOL_VERSION: u32 = 101;

pub const UNEXPECTED_STRING: u32 = 102;

pub const UNEXPECTED_BIN: u32 = 103;

pub const UNEXPECTED_OTHER: u32 = 104;

pub const BAD_HANDSHAKE: u32 = 105;

pub const INVALID_MESSAGE: u32 = 106;

pub const NEED_LOGIN: u32 = 107;

pub const NEED_HANDSHAKE: u32 = 108;

pub const INVALID_GAME_ID: u32 = 109;

} // verus!
