//! What holds of the simulation as a whole: facts about the floor and the
//! wall of a position, and about the snapshots that ticks lead to.

use vstd::prelude::*;
use crate::board::Platform;
use crate::direction::Direction;
use crate::error::SimulationError;
use crate::state::{
    blocks, floor_at, has_support, has_wall, is_floor, is_wall, lemma_floor_unique,
    lemma_wall_unique, supports, wall_at, State, GRAVITY_PER_MILLISECOND,
};
use crate::units::{saturated, Meters, Millis};

verus! {

/// Some platform lies under `x`, ends included, with its surface exactly at
/// `y`.
pub open spec fn on_surface(platforms: Seq<Platform>, x: Meters, y: Meters) -> bool {
    exists|i: int| 0 <= i < platforms.len() && (#[trigger] platforms[i]).spans(x) && platforms[i].y == y
}

/// The one of two coordinates that lies further right.
pub open spec fn further_right(a: int, b: int) -> int {
    if a >= b {
        a
    } else {
        b
    }
}

/// The outcome of `n` ticks of `time_delta` each, one after the other: the
/// first failure, or the last snapshot.
pub open spec fn updated_times(s: State, time_delta: Millis, n: nat) -> Result<
    State,
    SimulationError,
>
    decreases n,
{
    if n == 0 {
        Ok(s)
    } else {
        match updated_times(s, time_delta, (n - 1) as nat) {
            Ok(t) => t.updated(time_delta),
            Err(e) => Err(e),
        }
    }
}

/// Where a platform supports the position, one of the supporting platforms
/// is the highest.
pub proof fn lemma_floor_exists(platforms: Seq<Platform>, x: Meters, y: Meters)
    requires
        has_support(platforms, x, y),
    ensures
        exists|f: Meters| is_floor(platforms, x, y, f),
    decreases platforms.len(),
{
    let n = platforms.len() - 1;
    let rest = platforms.drop_last();
    let p = platforms[n];
    assert forall|j: int| 0 <= j < n implies rest[j] == platforms[j] by {}
    if has_support(rest, x, y) {
        lemma_floor_exists(rest, x, y);
        let g = choose|g: Meters| is_floor(rest, x, y, g);
        let k = choose|k: int| 0 <= k < n && supports(#[trigger] rest[k], x, y) && rest[k].y == g;
        assert(supports(platforms[k], x, y) && platforms[k].y == g);
        let f = if supports(p, x, y) && p.y@ > g@ {
            p.y
        } else {
            g
        };
        assert forall|j: int| 0 <= j < platforms.len() && supports(#[trigger] platforms[j], x, y)
            implies platforms[j].y@ <= f@ by {
            if j < n {
                assert(supports(rest[j], x, y));
            }
        }
        assert(is_floor(platforms, x, y, f));
    } else {
        let i = choose|i: int| 0 <= i < platforms.len() && supports(#[trigger] platforms[i], x, y);
        if i < n {
            assert(supports(rest[i], x, y));
        }
        assert forall|j: int| 0 <= j < platforms.len() && supports(#[trigger] platforms[j], x, y)
            implies platforms[j].y@ <= p.y@ by {
            if j < n {
                assert(supports(rest[j], x, y));
            }
        }
        assert(is_floor(platforms, x, y, p.y));
    }
}

/// Where a platform blocks the position, one of the blocking platforms is
/// the nearest, and the first of the nearest.
pub proof fn lemma_wall_exists(platforms: Seq<Platform>, x: Meters, y: Meters)
    requires
        has_wall(platforms, x, y),
    ensures
        exists|i: int| is_wall(platforms, x, y, i),
    decreases platforms.len(),
{
    let n = platforms.len() - 1;
    let rest = platforms.drop_last();
    let p = platforms[n];
    assert forall|j: int| 0 <= j < n implies rest[j] == platforms[j] by {}
    if has_wall(rest, x, y) {
        lemma_wall_exists(rest, x, y);
        let k = choose|k: int| is_wall(rest, x, y, k);
        let at = if blocks(p, x, y) && p.x_to@ > rest[k].x_to@ {
            n
        } else {
            k
        };
        assert forall|j: int| 0 <= j < platforms.len() && blocks(#[trigger] platforms[j], x, y)
            implies platforms[j].x_to@ <= platforms[at].x_to@ by {
            if j < n {
                assert(blocks(rest[j], x, y));
            }
        }
        assert forall|j: int| 0 <= j < at && blocks(#[trigger] platforms[j], x, y)
            implies platforms[j].x_to@ < platforms[at].x_to@ by {
            assert(blocks(rest[j], x, y));
        }
        assert(is_wall(platforms, x, y, at));
    } else {
        let i = choose|i: int| 0 <= i < platforms.len() && blocks(#[trigger] platforms[i], x, y);
        if i < n {
            assert(blocks(rest[i], x, y));
        }
        assert forall|j: int| 0 <= j < n implies !blocks(#[trigger] platforms[j], x, y) by {
            if blocks(platforms[j], x, y) {
                assert(blocks(rest[j], x, y));
            }
        }
        assert(is_wall(platforms, x, y, n));
    }
}

/// The floor of a position is the height of the highest platform that
/// supports it: there is a floor exactly if some platform supports the
/// position, the floor is the height of such a platform, no such platform
/// is higher, and no other height has these two properties.
pub proof fn lemma_floor_is_highest_support(platforms: Seq<Platform>, x: Meters, y: Meters)
    ensures
        floor_at(platforms, x, y) is Some <==> has_support(platforms, x, y),
        forall|f: Meters|
            floor_at(platforms, x, y) == Some(f) <==> #[trigger] is_floor(platforms, x, y, f),
{
    if has_support(platforms, x, y) {
        lemma_floor_exists(platforms, x, y);
        let chosen = choose|g: Meters| is_floor(platforms, x, y, g);
        assert forall|f: Meters| #[trigger] is_floor(platforms, x, y, f) implies floor_at(
            platforms,
            x,
            y,
        ) == Some(f) by {
            lemma_floor_unique(platforms, x, y, f, chosen);
        }
    }
}

/// The wall of a position is the nearest platform that blocks it: there is
/// a wall exactly if some platform blocks the position, and the wall is the
/// first blocking platform of the board with the rightmost right end. It
/// ends at or left of the position.
pub proof fn lemma_wall_is_nearest_block(platforms: Seq<Platform>, x: Meters, y: Meters)
    ensures
        wall_at(platforms, x, y) is Some <==> has_wall(platforms, x, y),
        forall|i: int| #[trigger]
            is_wall(platforms, x, y, i) ==> wall_at(platforms, x, y) == Some(platforms[i]),
        wall_at(platforms, x, y) matches Some(p) ==> blocks(p, x, y) && exists|i: int|
            is_wall(platforms, x, y, i) && platforms[i] == p,
{
    if has_wall(platforms, x, y) {
        lemma_wall_exists(platforms, x, y);
        let chosen = choose|i: int| is_wall(platforms, x, y, i);
        assert forall|i: int| #[trigger] is_wall(platforms, x, y, i) implies wall_at(
            platforms,
            x,
            y,
        ) == Some(platforms[i]) by {
            lemma_wall_unique(platforms, x, y, i, chosen);
        }
    } else {
        assert forall|i: int| #[trigger] is_wall(platforms, x, y, i) implies false by {
            assert(blocks(platforms[i], x, y));
        }
    }
}

/// The character stands at the height of its own floor exactly if it stands
/// on the surface of a platform.
pub proof fn lemma_at_floor_iff_on_surface(s: State)
    ensures
        s.floor() == Some(s.y) <==> on_surface(s.board.platforms@, s.x, s.y),
{
    let platforms = s.board.platforms@;
    lemma_floor_is_highest_support(platforms, s.x, s.y);
    if on_surface(platforms, s.x, s.y) {
        let i = choose|i: int|
            0 <= i < platforms.len() && (#[trigger] platforms[i]).spans(s.x) && platforms[i].y
                == s.y;
        assert(supports(platforms[i], s.x, s.y));
        assert(is_floor(platforms, s.x, s.y, s.y));
    }
    if s.floor() == Some(s.y) {
        assert(is_floor(platforms, s.x, s.y, s.y));
        let i = choose|i: int|
            0 <= i < platforms.len() && supports(#[trigger] platforms[i], s.x, s.y)
                && platforms[i].y == s.y;
        assert(platforms[i].spans(s.x));
    }
}

/// The tick has left the character where its height tells of the ground
/// under it: it ends at the height of the floor it started over exactly if
/// it ends on the surface of a platform. This fails in two ways only: the
/// character ends at that height, but has been carried sideways off every
/// platform of that height; or it ends above that floor, exactly on the
/// surface of another platform.
pub open spec fn lands_true(s: State, next: State) -> bool {
    s.floor() matches Some(old_floor) && ((next.y == old_floor) == on_surface(
        next.board.platforms@,
        next.x,
        next.y,
    ))
}

/// After a tick that lands true, the ground flag says whether the character
/// stands at the height of the floor under its new position.
pub proof fn lemma_ground_flag_matches_floor(s: State, time_delta: Millis, next: State)
    requires
        s.updated(time_delta) == Ok::<State, SimulationError>(next),
        lands_true(s, next),
    ensures
        next.is_on_ground == (next.floor() == Some(next.y)),
{
    lemma_at_floor_iff_on_surface(next);
    lemma_ground_flag_is_about_old_floor(s, time_delta, next);
}

/// After a tick that does not land true, the ground flag says the opposite
/// of whether the character stands at the height of the floor under its new
/// position.
pub proof fn lemma_ground_flag_misses_floor(s: State, time_delta: Millis, next: State)
    requires
        s.updated(time_delta) == Ok::<State, SimulationError>(next),
        !lands_true(s, next),
    ensures
        next.is_on_ground != (next.floor() == Some(next.y)),
{
    lemma_at_floor_iff_on_surface(next);
    lemma_ground_flag_is_about_old_floor(s, time_delta, next);
}

/// After a tick the ground flag says whether the character has ended at the
/// height of the floor that lay under it before the tick.
pub proof fn lemma_ground_flag_is_about_old_floor(s: State, time_delta: Millis, next: State)
    requires
        s.updated(time_delta) == Ok::<State, SimulationError>(next),
    ensures
        s.floor() matches Some(old_floor) && next.is_on_ground == (next.y == old_floor),
{
    let old_floor = s.floor().unwrap();
    assert(next.y@ == old_floor@ ==> next.y.0 == old_floor.0);
}

/// A tick that moves the character neither sideways nor upward leaves its
/// floor where it was, and the ground flag then says whether the character
/// stands at the height of the floor under it.
pub proof fn lemma_ground_flag_without_travel(s: State, time_delta: Millis, next: State)
    requires
        s.updated(time_delta) == Ok::<State, SimulationError>(next),
        next.x == s.x,
        next.y@ <= s.y@,
    ensures
        next.floor() == s.floor(),
        next.is_on_ground == (next.floor() == Some(next.y)),
{
    let platforms = s.board.platforms@;
    lemma_floor_is_highest_support(platforms, s.x, s.y);
    lemma_floor_is_highest_support(platforms, next.x, next.y);
    let f = s.floor().unwrap();
    assert(is_floor(platforms, s.x, s.y, f));
    let i = choose|i: int|
        0 <= i < platforms.len() && supports(#[trigger] platforms[i], s.x, s.y) && platforms[i].y
            == f;
    assert(supports(platforms[i], next.x, next.y));
    assert forall|j: int|
        0 <= j < platforms.len() && supports(#[trigger] platforms[j], next.x, next.y)
        implies platforms[j].y@ <= f@ by {
        assert(supports(platforms[j], s.x, s.y));
    }
    assert(is_floor(platforms, next.x, next.y, f));
}

/// A character with ground under it, whose downward or zero velocity holds
/// it there and that does not walk, stays where it is through a tick of any
/// length: its position and its ground flag are kept, and only its velocity
/// falls, by gravity's share of the time.
pub proof fn lemma_rest_survives_tick(s: State, time_delta: Millis)
    requires
        s.floor() == Some(s.y),
        !s.is_moving,
        s.speed_y@ <= 0,
        time_delta >= 0,
    ensures
        s.updated(time_delta) matches Ok(next) && next.x == s.x && next.y == s.y
            && next.is_on_ground && next.floor() == Some(next.y),
        s.updated(time_delta) matches Ok(next) && !next.is_moving && next.direction == s.direction
            && next.board == s.board,
        s.updated(time_delta) matches Ok(next) && next.speed_y@ <= s.speed_y@ && next.speed_y@
            == saturated(s.speed_y@ - GRAVITY_PER_MILLISECOND * time_delta),
{
    lemma_wall_is_nearest_block(s.board.platforms@, s.x, s.y);
    assert(s.wall_edge() <= s.x@);
    assert(s.speed_y@ * time_delta <= 0) by (nonlinear_arith)
        requires
            s.speed_y@ <= 0,
            time_delta >= 0,
    ;
}

/// Rest is kept: from a character that stands on its floor, flagged as on
/// the ground, and does not walk, any number of ticks of no time at all
/// lead to a snapshot with the same position and the same ground flag, on
/// the same board and still not walking, and with a velocity that has not
/// risen.
pub proof fn lemma_rest_is_idempotent(s: State, n: nat)
    requires
        s.is_on_ground,
        s.floor() == Some(s.y),
        !s.is_moving,
    ensures
        updated_times(s, 0, n) matches Ok(t) && t.x == s.x && t.y == s.y && t.is_on_ground
            == s.is_on_ground && t.speed_y@ <= s.speed_y@ && t.board == s.board && !t.is_moving,
    decreases n,
{
    if n > 0 {
        lemma_rest_is_idempotent(s, (n - 1) as nat);
        let t = updated_times(s, 0, (n - 1) as nat).unwrap();
        lemma_still_tick_keeps_all(t);
    }
}

/// A tick of no time at all gives back the snapshot it was given, but for
/// the ground flag, which then says whether the character stands at the
/// height of its floor.
pub proof fn lemma_still_tick_keeps_all(s: State)
    requires
        s.floor() is Some,
    ensures
        s.updated(0) == Ok::<State, SimulationError>(
            (State { is_on_ground: s.floor() == Some(s.y), ..s }),
        ),
{
    lemma_wall_is_nearest_block(s.board.platforms@, s.x, s.y);
    lemma_floor_is_highest_support(s.board.platforms@, s.x, s.y);
    let f = s.floor().unwrap();
    assert(is_floor(s.board.platforms@, s.x, s.y, f));
    assert(f@ <= s.y@);
    assert(s.wall_edge() <= s.x@);
    let next = s.updated(0).unwrap();
    assert(next.x.0 == s.x.0);
    assert(next.y.0 == s.y.0);
    assert(next.speed_y.0 == s.speed_y.0);
    assert((s.y@ == f@) == (s.y == f));
}

/// Walking forward from the ground: after the wish to go forward and a tick,
/// the character has advanced by its walking velocity times the time, unless
/// the wall on its left ends further right than that.
pub proof fn lemma_walk_forward(s: State, time_delta: Millis)
    requires
        s.is_on_ground,
        s.floor() is Some,
        time_delta >= 0,
    ensures
        s.headed(Direction::Forward).updated(time_delta) matches Ok(next) && next.direction
            == Direction::Forward && next.is_moving && next.x@ == further_right(
            saturated(s.x@ + Direction::Forward.velocity() * time_delta),
            s.wall_edge(),
        ),
{
    lemma_wall_is_nearest_block(s.board.platforms@, s.x, s.y);
}

} // verus!
