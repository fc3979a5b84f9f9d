//! The two horizontal orientations and the velocity that goes with each.

use vstd::prelude::*;
use crate::units::{MetersPerSecond, UNITS_PER_METER_PER_SECOND};

verus! {

/// Whole metres per second at which the character walks.
pub const WALKING_SPEED: i64 = 6;

/// Which way the character faces and walks.
#[derive(Clone, Copy, Debug, PartialEq, Eq, Structural)]
pub enum Direction {
    Forward,
    Backward,
}

impl Default for Direction {
    fn default() -> (d: Direction)
        ensures
            d == Direction::Forward,
    {
        Direction::Forward
    }
}

impl Direction {
    /// The signed horizontal velocity of walking this way: positive forward,
    /// negative backward, the same magnitude both ways.
    pub open spec fn velocity(self) -> int {
        match self {
            Direction::Forward => WALKING_SPEED * UNITS_PER_METER_PER_SECOND,
            Direction::Backward => -(WALKING_SPEED * UNITS_PER_METER_PER_SECOND),
        }
    }

    /// The signed horizontal velocity of walking this way.
    pub fn speed(&self) -> (v: MetersPerSecond)
        ensures
            v@ == self.velocity(),
    {
        let speed: i64 = WALKING_SPEED * UNITS_PER_METER_PER_SECOND;
        match self {
            Direction::Forward => MetersPerSecond(speed),
            Direction::Backward => MetersPerSecond(-speed),
        }
    }
}

} // verus!
