//! Periods of the browser's timers.

use vstd::prelude::*;

verus! {

/// The period of a timer in the milliseconds that the browser counts: the
/// longest it can count where the period is longer than that.
pub fn interval_millis(time_millis: u128) -> (r: u32)
    ensures
        r == if time_millis > u32::MAX {
            u32::MAX
        } else {
            time_millis as u32
        },
{
    if time_millis > u32::MAX as u128 {
        u32::MAX
    } else {
        time_millis as u32
    }
}

} // verus!
