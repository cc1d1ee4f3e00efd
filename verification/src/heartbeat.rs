//! The main loop's heartbeat counter.
//!
//! The background loop emits one numbered trace line per iteration. The
//! counter steps by one each time and wraps to the representation's minimum
//! value after its maximum; wraparound is not an error.

use vstd::prelude::*;

verus! {

/// The heartbeat counter value for the next loop iteration: one more than the
/// current value, resuming from the minimum after the maximum.
pub fn next_count(i: i32) -> (n: i32)
    ensures
        i < i32::MAX ==> n == i + 1,
        i == i32::MAX ==> n == i32::MIN,
{
    if i == i32::MAX {
        i32::MIN
    } else {
        i + 1
    }
}

} // verus!
