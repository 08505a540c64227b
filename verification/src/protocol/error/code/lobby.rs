//! A well-formed request that the lobby's rules refuse: 300 to 399.

use vstd::prelude::*;

verus! {

pub const LOBBY_ERROR: u32 = 300;

pub const GAME_ALREADY_JOINED: u32 = 301;

pub const GAME_DOESNT_EXISTS: u32 = 302;

pub const GAME_NOT_JOINED: u32 = 303;

} // verus!
