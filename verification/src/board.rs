//! The static world: platforms to stand on and coins placed above them.

use vstd::prelude::*;
use crate::error::SimulationError;
use crate::units::{saturate, saturated, Meters, UNITS_PER_METER};

verus! {

/// What a coin is worth.
pub type CoinValue = u8;

/// Metres from the middle of one default platform to the middle of the next.
pub const DEFAULT_SPACING: i32 = 20;

/// How many platforms, and how many coins, the default board holds.
pub const DEFAULT_STEPS: i32 = 10;

/// A horizontal segment at height `y`, reaching from `x_from` to `x_to`.
#[derive(Clone, Copy, Debug, PartialEq, Eq, Structural)]
pub struct Platform {
    pub x_from: Meters,
    pub x_to: Meters,
    pub y: Meters,
}

/// A collectible marker. It takes no part in the physics.
#[derive(Clone, Copy, Debug, PartialEq, Eq, Structural)]
pub struct Coin {
    pub x: Meters,
    pub y: Meters,
    pub value: CoinValue,
}

/// The platforms and coins of one world, fixed once built.
#[derive(Clone, Debug, PartialEq, Eq)]
pub struct Board {
    pub platforms: Vec<Platform>,
    pub coins: Vec<Coin>,
}

impl Platform {
    /// A platform has a left end strictly left of its right end.
    pub open spec fn wf(self) -> bool {
        self.x_from@ < self.x_to@
    }

    /// Whether `x` lies over the platform, its two ends included.
    pub open spec fn spans(self, x: Meters) -> bool {
        self.x_from@ <= x@ <= self.x_to@
    }

    /// The distance from the left end to the right end, or the greatest
    /// representable length where the distance exceeds it.
    pub fn width(self) -> (w: Meters)
        ensures
            w@ == saturated(self.x_to@ - self.x_from@),
    {
        Meters(saturate(self.x_to.0 as i128 - self.x_from.0 as i128))
    }
}

/// The platform at step `n` of the default staircase: as wide as the
/// spacing, centred on the step, one metre lower with each step.
pub open spec fn default_platform(n: int) -> Platform {
    Platform {
        x_from: Meters(((n * DEFAULT_SPACING - DEFAULT_SPACING / 2) * UNITS_PER_METER) as i64),
        x_to: Meters(((n * DEFAULT_SPACING + DEFAULT_SPACING / 2) * UNITS_PER_METER) as i64),
        y: Meters((-n * UNITS_PER_METER) as i64),
    }
}

/// The coin at step `n` of the default staircase: one metre above the
/// middle of the platform, worth the step's number.
pub open spec fn default_coin(n: int) -> Coin {
    Coin {
        x: Meters((n * DEFAULT_SPACING * UNITS_PER_METER) as i64),
        y: Meters(((1 - n) * UNITS_PER_METER) as i64),
        value: n as u8,
    }
}

impl Board {
    /// Every platform of the board is well formed.
    pub open spec fn wf(&self) -> bool {
        forall|i: int| 0 <= i < self.platforms@.len() ==> (#[trigger] self.platforms@[i]).wf()
    }

    /// Builds a board from its parts, and refuses them if any platform is
    /// not well formed.
    pub fn new(platforms: Vec<Platform>, coins: Vec<Coin>) -> (r: Result<Board, SimulationError>)
        ensures
            r is Ok <==> forall|i: int|
                0 <= i < platforms@.len() ==> (#[trigger] platforms@[i]).wf(),
            r matches Ok(board) ==> board.platforms == platforms && board.coins == coins
                && board.wf(),
            r matches Err(e) ==> e == SimulationError::InvalidPlatform,
    {
        let mut i: usize = 0;
        while i < platforms.len()
            invariant
                i <= platforms@.len(),
                forall|j: int| 0 <= j < i ==> (#[trigger] platforms@[j]).wf(),
            decreases platforms@.len() - i,
        {
            if platforms[i].x_from.0 >= platforms[i].x_to.0 {
                return Err(SimulationError::InvalidPlatform);
            }
            i += 1;
        }
        Ok(Board { platforms, coins })
    }
}

impl Default for Board {
    /// The default world: a staircase that descends to the right.
    fn default() -> (board: Board)
        ensures
            board.wf(),
            board.platforms@.len() == DEFAULT_STEPS,
            board.coins@.len() == DEFAULT_STEPS,
            forall|n: int| 0 <= n < DEFAULT_STEPS ==> board.platforms@[n] == default_platform(n),
            forall|n: int| 0 <= n < DEFAULT_STEPS ==> board.coins@[n] == default_coin(n),
    {
        let half: i32 = DEFAULT_SPACING / 2;
        let mut platforms: Vec<Platform> = Vec::new();
        let mut coins: Vec<Coin> = Vec::new();
        let mut n: i32 = 0;
        while n < DEFAULT_STEPS
            invariant
                0 <= n <= DEFAULT_STEPS,
                half == DEFAULT_SPACING / 2,
                platforms@.len() == n,
                coins@.len() == n,
                forall|k: int| 0 <= k < n ==> platforms@[k] == default_platform(k),
                forall|k: int| 0 <= k < n ==> (#[trigger] platforms@[k]).wf(),
                forall|k: int| 0 <= k < n ==> coins@[k] == default_coin(k),
            decreases DEFAULT_STEPS - n,
        {
            platforms.push(Platform {
                x_from: Meters::from_whole(n * DEFAULT_SPACING - half),
                x_to: Meters::from_whole(n * DEFAULT_SPACING + half),
                y: Meters::from_whole(-n),
            });
            coins.push(Coin {
                x: Meters::from_whole(n * DEFAULT_SPACING),
                y: Meters::from_whole(1 - n),
                value: n as u8,
            });
            n += 1;
        }
        Board { platforms, coins }
    }
}

} // verus!
