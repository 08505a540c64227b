//! A well-formed action that the game's rules refuse: 400 to 499.

use vstd::prelude::*;

verus! {

pub const GAME_ERROR: u32 = 400;

pub const ILLEGAL_MOVE: u32 = 401;

pub const NOT_YOUR_TURN: u32 = 402;

} // verus!
