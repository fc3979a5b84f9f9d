//! The character: where it is, how it moves, and how one tick changes it.

use vstd::prelude::*;
use crate::board::{Board, Platform};
use crate::direction::Direction;
use crate::error::SimulationError;
use crate::units::{
    millis_to_seconds, saturate, saturated, Meters, MetersPerSecond, Millis, Seconds,
    UNITS_PER_METER, UNITS_PER_METER_PER_SECOND,
};

verus! {

/// Whole metres per second of upward velocity that a jump gives.
pub const JUMP_SPEED: i64 = 7;

/// Velocity units that gravity takes away in each millisecond: 9.81 metres
/// per second, every second.
pub const GRAVITY_PER_MILLISECOND: i64 = 981;

/// Whole metres above the origin at which a new character starts.
pub const START_HEIGHT: i32 = 10;

/// One snapshot of the simulation. A transition consumes a snapshot and
/// gives the next one; the board travels along unchanged.
#[derive(Clone, Debug, PartialEq, Eq)]
pub struct State {
    pub direction: Direction,
    pub is_moving: bool,
    pub is_on_ground: bool,
    pub x: Meters,
    pub y: Meters,
    pub speed_y: MetersPerSecond,
    pub board: Board,
}

/// Whether `p` can carry a character at (`x`, `y`): it lies under `x`, ends
/// included, and its surface is at or below `y`.
pub open spec fn supports(p: Platform, x: Meters, y: Meters) -> bool {
    p.spans(x) && p.y@ <= y@
}

/// Whether `p` stands in the way of a character at (`x`, `y`) that walks
/// left: its surface is at or above `y`, and its right end at or left of `x`.
pub open spec fn blocks(p: Platform, x: Meters, y: Meters) -> bool {
    p.y@ >= y@ && p.x_to@ <= x@
}

/// Some platform supports a character at (`x`, `y`).
pub open spec fn has_support(platforms: Seq<Platform>, x: Meters, y: Meters) -> bool {
    exists|i: int| 0 <= i < platforms.len() && supports(#[trigger] platforms[i], x, y)
}

/// `f` is the height of a supporting platform, and no supporting platform is
/// higher.
pub open spec fn is_floor(platforms: Seq<Platform>, x: Meters, y: Meters, f: Meters) -> bool {
    &&& exists|i: int|
        0 <= i < platforms.len() && supports(#[trigger] platforms[i], x, y) && platforms[i].y == f
    &&& forall|i: int|
        0 <= i < platforms.len() && supports(#[trigger] platforms[i], x, y) ==> platforms[i].y@
            <= f@
}

/// The height of the highest supporting platform, if there is one.
pub open spec fn floor_at(platforms: Seq<Platform>, x: Meters, y: Meters) -> Option<Meters> {
    if has_support(platforms, x, y) {
        Some(choose|f: Meters| is_floor(platforms, x, y, f))
    } else {
        None
    }
}

/// Some platform blocks a character at (`x`, `y`).
pub open spec fn has_wall(platforms: Seq<Platform>, x: Meters, y: Meters) -> bool {
    exists|i: int| 0 <= i < platforms.len() && blocks(#[trigger] platforms[i], x, y)
}

/// The platform at index `i` blocks, no blocking platform ends further
/// right, and every blocking platform before it ends further left.
pub open spec fn is_wall(platforms: Seq<Platform>, x: Meters, y: Meters, i: int) -> bool {
    &&& 0 <= i < platforms.len()
    &&& blocks(platforms[i], x, y)
    &&& forall|j: int|
        0 <= j < platforms.len() && blocks(#[trigger] platforms[j], x, y) ==> platforms[j].x_to@
            <= platforms[i].x_to@
    &&& forall|j: int|
        0 <= j < i && blocks(#[trigger] platforms[j], x, y) ==> platforms[j].x_to@
            < platforms[i].x_to@
}

/// The blocking platform whose right end is nearest, the first such in the
/// board's order, if there is one.
pub open spec fn wall_at(platforms: Seq<Platform>, x: Meters, y: Meters) -> Option<Platform> {
    if has_wall(platforms, x, y) {
        Some(platforms[choose|i: int| is_wall(platforms, x, y, i)])
    } else {
        None
    }
}

/// Two floors of one position are the same height.
pub proof fn lemma_floor_unique(platforms: Seq<Platform>, x: Meters, y: Meters, f: Meters, g: Meters)
    requires
        is_floor(platforms, x, y, f),
        is_floor(platforms, x, y, g),
    ensures
        f == g,
{
    assert(f@ <= g@);
    assert(g@ <= f@);
    assert(f.0 == g.0);
}

/// Two nearest walls of one position are the same platform of the board.
pub proof fn lemma_wall_unique(platforms: Seq<Platform>, x: Meters, y: Meters, i: int, j: int)
    requires
        is_wall(platforms, x, y, i),
        is_wall(platforms, x, y, j),
    ensures
        i == j,
{
    if i < j {
        assert(platforms[i].x_to@ < platforms[j].x_to@);
        assert(platforms[j].x_to@ <= platforms[i].x_to@);
    } else if j < i {
        assert(platforms[j].x_to@ < platforms[i].x_to@);
        assert(platforms[i].x_to@ <= platforms[j].x_to@);
    }
}

/// The length covered at velocity `v` in the time `s`, exactly.
fn distance(v: MetersPerSecond, s: Seconds) -> (d: i128)
    requires
        0 <= s@ <= i32::MAX,
    ensures
        d == v@ * s@,
        -0x8000_0000_0000_0000 * 0x8000_0000 <= d <= 0x8000_0000_0000_0000 * 0x8000_0000,
{
    assert(-0x8000_0000_0000_0000 * 0x8000_0000 <= v.0 * s.0 <= 0x8000_0000_0000_0000
        * 0x8000_0000) by (nonlinear_arith)
        requires
            -0x8000_0000_0000_0000 <= v.0 < 0x8000_0000_0000_0000,
            0 <= s.0 < 0x8000_0000,
    ;
    v.0 as i128 * s.0 as i128
}

impl Default for State {
    /// A character above the first platform of the default board: facing
    /// forward, standing still, not yet fallen onto the ground.
    fn default() -> (s: State)
        ensures
            s.direction == Direction::Forward,
            !s.is_moving,
            !s.is_on_ground,
            s.x@ == 0,
            s.y@ == START_HEIGHT * UNITS_PER_METER,
            s.speed_y@ == 0,
            s.board.wf(),
            s.board.platforms@.len() == crate::board::DEFAULT_STEPS,
            s.board.coins@.len() == crate::board::DEFAULT_STEPS,
            forall|n: int|
                0 <= n < crate::board::DEFAULT_STEPS ==> s.board.platforms@[n]
                    == crate::board::default_platform(n),
            forall|n: int|
                0 <= n < crate::board::DEFAULT_STEPS ==> s.board.coins@[n]
                    == crate::board::default_coin(n),
    {
        State {
            x: Meters(0),
            y: Meters::from_whole(START_HEIGHT),
            speed_y: MetersPerSecond(0),
            direction: Direction::default(),
            is_moving: false,
            is_on_ground: false,
            board: Board::default(),
        }
    }
}

impl State {
    /// The height of the ground under the character, if there is any.
    pub open spec fn floor(&self) -> Option<Meters> {
        floor_at(self.board.platforms@, self.x, self.y)
    }

    /// The platform that stops the character's walk to the left, if any does.
    pub open spec fn wall(&self) -> Option<Platform> {
        wall_at(self.board.platforms@, self.x, self.y)
    }

    /// The coordinate left of which the character cannot walk: the right end
    /// of the wall, or the least coordinate there is where nothing blocks.
    pub open spec fn wall_edge(&self) -> int {
        match self.wall() {
            Some(p) => p.x_to@,
            None => i64::MIN as int,
        }
    }

    /// The snapshot after the wish to walk in `direction`: granted on the
    /// ground, ignored in the air.
    pub open spec fn headed(self, direction: Direction) -> State {
        if self.is_on_ground {
            State { direction, is_moving: true, ..self }
        } else {
            self
        }
    }

    /// The snapshot after the wish to stand still: granted on the ground,
    /// ignored in the air.
    pub open spec fn stopped(self) -> State {
        if self.is_on_ground {
            State { is_moving: false, ..self }
        } else {
            self
        }
    }

    /// The snapshot after a jump: the upward velocity is the jump's, whatever
    /// it was, and nothing else has changed.
    pub open spec fn jumped(self) -> State {
        State {
            speed_y: MetersPerSecond((JUMP_SPEED * UNITS_PER_METER_PER_SECOND) as i64),
            ..self
        }
    }

    /// The horizontal distance that the character wants to cover in
    /// `time_delta`: its walking velocity times the time, or nothing if it
    /// stands.
    pub open spec fn x_delta(self, time_delta: Millis) -> int {
        if self.is_moving {
            self.direction.velocity() * time_delta
        } else {
            0
        }
    }

    /// The outcome of one tick of `time_delta`.
    ///
    /// Negative time is refused, and so is a character with no ground under
    /// it. Otherwise the character moves sideways by its walking distance but
    /// not past the wall on its left, moves vertically by its old velocity
    /// but not below the floor that lay under it before the tick, loses
    /// velocity to gravity, and is on the ground exactly if it ends at that
    /// floor's height. Where a sum leaves the representable range it stays
    /// at the range's end.
    pub open spec fn updated(self, time_delta: Millis) -> Result<State, SimulationError> {
        if time_delta < 0 {
            Err(SimulationError::InvalidTimeDelta)
        } else {
            match self.floor() {
                None => Err(SimulationError::NoGroundBelow),
                Some(floor) => {
                    let x_free = saturated(self.x@ + self.x_delta(time_delta));
                    let x = if x_free >= self.wall_edge() {
                        x_free
                    } else {
                        self.wall_edge()
                    };
                    let y_free = saturated(self.y@ + self.speed_y@ * time_delta);
                    let y = if y_free >= floor@ {
                        y_free
                    } else {
                        floor@
                    };
                    let speed_y = saturated(self.speed_y@ - GRAVITY_PER_MILLISECOND * time_delta);
                    Ok(
                        State {
                            x: Meters(x as i64),
                            y: Meters(y as i64),
                            is_on_ground: y == floor@,
                            speed_y: MetersPerSecond(speed_y as i64),
                            ..self
                        },
                    )
                },
            }
        }
    }

    /// Starts walking in `direction`, if the character is on the ground.
    pub fn go_in_direction(self, direction: Direction) -> (next: State)
        ensures
            next == self.headed(direction),
            !self.is_on_ground ==> next == self,
    {
        if self.is_on_ground {
            State { direction, is_moving: true, ..self }
        } else {
            self
        }
    }

    /// Starts walking forward, if the character is on the ground.
    pub fn go_forward(self) -> (next: State)
        ensures
            next == self.headed(Direction::Forward),
            !self.is_on_ground ==> next == self,
    {
        self.go_in_direction(Direction::Forward)
    }

    /// Starts walking backward, if the character is on the ground.
    pub fn go_backward(self) -> (next: State)
        ensures
            next == self.headed(Direction::Backward),
            !self.is_on_ground ==> next == self,
    {
        self.go_in_direction(Direction::Backward)
    }

    /// Stops walking, if the character is on the ground.
    pub fn stop(self) -> (next: State)
        ensures
            next == self.stopped(),
            !self.is_on_ground ==> next == self,
    {
        if self.is_on_ground {
            State { is_moving: false, ..self }
        } else {
            self
        }
    }

    /// Jumps, from the ground or in the air alike.
    pub fn jump(self) -> (next: State)
        ensures
            next == self.jumped(),
            next.speed_y@ == JUMP_SPEED * UNITS_PER_METER_PER_SECOND,
    {
        State { speed_y: MetersPerSecond(JUMP_SPEED * UNITS_PER_METER_PER_SECOND), ..self }
    }

    /// Advances the simulation by `time_delta` milliseconds.
    ///
    /// Succeeds exactly if the time is not negative and there is ground under
    /// the character; of the two failures that of the time comes first.
    pub fn update(self, time_delta: Millis) -> (r: Result<State, SimulationError>)
        ensures
            r == self.updated(time_delta),
            r is Ok <==> time_delta >= 0 && has_support(self.board.platforms@, self.x, self.y),
            r matches Err(e) ==> (time_delta < 0 && e == SimulationError::InvalidTimeDelta)
                || (time_delta >= 0 && e == SimulationError::NoGroundBelow),
            r matches Ok(next) ==> next.board == self.board && next.direction == self.direction
                && next.is_moving == self.is_moving,
            r matches Ok(next) ==> next.is_on_ground == (self.floor() == Some(next.y)),
            r matches Ok(next) ==> next.x@ >= self.wall_edge(),
            r matches Ok(next) ==> (self.floor() matches Some(floor) && next.y@ >= floor@),
    {
        if time_delta < 0 {
            return Err(SimulationError::InvalidTimeDelta);
        }
        let seconds = millis_to_seconds(time_delta);
        let x_delta: i128 = if self.is_moving {
            distance(self.direction.speed(), seconds)
        } else {
            0
        };
        let platform_below = match self.platform_below() {
            Ok(floor) => floor.0,
            Err(e) => {
                return Err(e);
            },
        };
        let platform_on_left: i64 = match self.platform_on_left() {
            Some(platform) => platform.x_to.0,
            None => i64::MIN,
        };
        let x_free: i64 = saturate(self.x.0 as i128 + x_delta);
        let x: i64 = if x_free >= platform_on_left {
            x_free
        } else {
            platform_on_left
        };
        let y_free: i64 = saturate(self.y.0 as i128 + distance(self.speed_y, seconds));
        let y: i64 = if y_free >= platform_below {
            y_free
        } else {
            platform_below
        };
        let speed_y: i64 = saturate(
            self.speed_y.0 as i128 - GRAVITY_PER_MILLISECOND as i128 * seconds.0 as i128,
        );
        Ok(
            State {
                x: Meters(x),
                y: Meters(y),
                is_on_ground: y == platform_below,
                speed_y: MetersPerSecond(speed_y),
                ..self
            },
        )
    }

    /// The nearest platform that blocks the character's walk to the left:
    /// among the platforms at or above its height that end at or left of it,
    /// the one that ends furthest right, and of several such the first.
    pub fn platform_on_left(&self) -> (r: Option<Platform>)
        ensures
            r == self.wall(),
            r is Some <==> has_wall(self.board.platforms@, self.x, self.y),
            r matches Some(p) ==> exists|i: int|
                is_wall(self.board.platforms@, self.x, self.y, i) && p == self.board.platforms@[i],
    {
        let platforms = &self.board.platforms;
        let mut nearest: Option<usize> = None;
        let mut i: usize = 0;
        while i < platforms.len()
            invariant
                i <= platforms@.len(),
                platforms@ == self.board.platforms@,
                match nearest {
                    Some(at) => {
                        &&& at < i
                        &&& blocks(platforms@[at as int], self.x, self.y)
                        &&& forall|j: int|
                            0 <= j < i && blocks(#[trigger] platforms@[j], self.x, self.y)
                                ==> platforms@[j].x_to@ <= platforms@[at as int].x_to@
                        &&& forall|j: int|
                            0 <= j < at && blocks(#[trigger] platforms@[j], self.x, self.y)
                                ==> platforms@[j].x_to@ < platforms@[at as int].x_to@
                    },
                    None => forall|j: int|
                        0 <= j < i ==> !blocks(#[trigger] platforms@[j], self.x, self.y),
                },
            decreases platforms@.len() - i,
        {
            let p = platforms[i];
            if p.y.0 >= self.y.0 && p.x_to.0 <= self.x.0 {
                let nearer = match nearest {
                    Some(at) => p.x_to.0 > platforms[at].x_to.0,
                    None => true,
                };
                if nearer {
                    nearest = Some(i);
                }
            }
            i += 1;
        }
        match nearest {
            Some(at) => {
                proof {
                    assert(is_wall(platforms@, self.x, self.y, at as int));
                    let chosen = choose|i: int| is_wall(platforms@, self.x, self.y, i);
                    lemma_wall_unique(platforms@, self.x, self.y, at as int, chosen);
                }
                Some(platforms[at])
            },
            None => None,
        }
    }

    /// The height of the ground under the character: among the platforms
    /// that lie under it, ends included, at or below its height, the height
    /// of the highest.
    pub fn platform_below(&self) -> (r: Result<Meters, SimulationError>)
        ensures
            r is Ok <==> has_support(self.board.platforms@, self.x, self.y),
            r matches Ok(f) ==> is_floor(self.board.platforms@, self.x, self.y, f),
            r matches Err(e) ==> e == SimulationError::NoGroundBelow,
            r is Ok <==> self.floor() is Some,
            r matches Ok(f) ==> self.floor() == Some(f),
    {
        let platforms = &self.board.platforms;
        let mut highest: Option<Meters> = None;
        let ghost mut at: int = 0;
        let mut i: usize = 0;
        while i < platforms.len()
            invariant
                i <= platforms@.len(),
                platforms@ == self.board.platforms@,
                match highest {
                    Some(f) => {
                        &&& 0 <= at < i
                        &&& supports(platforms@[at], self.x, self.y)
                        &&& platforms@[at].y == f
                        &&& forall|j: int|
                            0 <= j < i && supports(#[trigger] platforms@[j], self.x, self.y)
                                ==> platforms@[j].y@ <= f@
                    },
                    None => forall|j: int|
                        0 <= j < i ==> !supports(#[trigger] platforms@[j], self.x, self.y),
                },
            decreases platforms@.len() - i,
        {
            let p = platforms[i];
            if p.x_from.0 <= self.x.0 && p.x_to.0 >= self.x.0 && p.y.0 <= self.y.0 {
                let higher = match highest {
                    Some(f) => p.y.0 > f.0,
                    None => true,
                };
                if higher {
                    highest = Some(p.y);
                    proof {
                        at = i as int;
                    }
                }
            }
            i += 1;
        }
        match highest {
            Some(f) => {
                proof {
                    assert(supports(platforms@[at], self.x, self.y));
                    assert(is_floor(platforms@, self.x, self.y, f));
                    let chosen = choose|g: Meters| is_floor(platforms@, self.x, self.y, g);
                    lemma_floor_unique(platforms@, self.x, self.y, f, chosen);
                }
                Ok(f)
            },
            None => Err(SimulationError::NoGroundBelow),
        }
    }
}

} // verus!
