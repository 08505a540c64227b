//! The server failed on its own: 200 to 299.

use vstd::prelude::*;

verus! {

pub const SERVER_ERROR: u32 = 200;

pub const UNIMPL_ERROR: u32 = 201;

pub const SERIALIZATION_ERROR: u32 = 202;

pub const MAILBOX_ERROR: u32 = 203;

} // verus!
