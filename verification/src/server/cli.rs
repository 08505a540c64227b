//! What the command line of the server may say.

use vstd::prelude::*;
use crate::server::log::Verbosity;

verus! {

/// The port on which the server listens unless told otherwise.
pub const DEFAULT_PORT: u16 = 8000;

/// Whether a number is a port to listen on: from 1 to 65535.
pub fn is_port(value: i32) -> (r: bool)
    ensures
        r == (1 <= value <= 65535),
{
    1 <= value && value <= 65535
}

/// The level of the log for a command line with `occurrences` flags for
/// more: one above `Critical` for each flag and one more, up to `Debug`.
pub fn verbosity_for(occurrences: u64) -> (r: Verbosity)
    ensures
        r == Verbosity::of_rank(
            if occurrences + 1 < 8 {
                (occurrences + 1) as u8
            } else {
                8u8
            },
        ),
{
    let verbose_count: u8 = if occurrences < 7 {
        (occurrences + 1) as u8
    } else {
        8
    };
    Verbosity::from(verbose_count)
}

} // verus!
