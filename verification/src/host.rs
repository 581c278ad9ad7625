//! Host metrics arithmetic.

use vstd::prelude::*;

verus! {

/// The byte count that the host-memory gauges report for a memory figure
/// read from the system: the figure times 1024, computed without overflow.
pub fn memory_bytes(figure: u64) -> (b: u128)
    ensures
        b == figure * 1024,
{
    figure as u128 * 1024
}

} // verus!
