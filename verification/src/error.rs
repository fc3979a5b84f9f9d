//! The ways in which building a world or advancing the simulation can fail.

use vstd::prelude::*;

verus! {

/// Why a board was not built or a tick was not taken.
#[derive(Clone, Copy, Debug, PartialEq, Eq, Structural)]
pub enum SimulationError {
    /// No platform lies under the character at or below its height.
    NoGroundBelow,
    /// A platform whose left end is not strictly left of its right end.
    InvalidPlatform,
    /// A negative amount of elapsed time.
    InvalidTimeDelta,
}

} // verus!
