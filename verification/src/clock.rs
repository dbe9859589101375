//! Time for the network stack, from the core's free-running cycle counter.

use vstd::prelude::*;

verus! {

/// Cycles of the core clock in one microsecond: the core runs at 200 MHz.
pub const CYCLES_PER_MICROSECOND: u32 = 200;

/// The timestamp, in microseconds, that a value of the cycle counter stands
/// for. The counter wraps, and the timestamp with it.
pub fn timestamp_micros(cycles: u32) -> (micros: u32)
    ensures
        micros == cycles / CYCLES_PER_MICROSECOND,
{
    cycles / CYCLES_PER_MICROSECOND
}

} // verus!
