//! Fixed-point quantities: lengths, velocities and durations.
//!
//! The three scales are chosen so that a velocity times a duration is a
//! length with no rounding: one length unit is one velocity unit sustained
//! for one duration unit.

use vstd::prelude::*;

verus! {

/// Elapsed time in whole milliseconds, as a frame clock reports it.
pub type Millis = i32;

/// Length units in one metre (a unit is ten nanometres).
pub const UNITS_PER_METER: i64 = 100_000_000;

/// Velocity units in one metre per second (a unit is ten micrometres per second).
pub const UNITS_PER_METER_PER_SECOND: i64 = 100_000;

/// Screen pixels that one metre covers.
pub const PIXELS_PER_METER: i64 = 60;

/// A length or a coordinate. The view is the count of length units.
#[derive(Clone, Copy, Debug, PartialEq, Eq, Structural)]
pub struct Meters(pub i64);

/// A velocity. The view is the count of velocity units.
#[derive(Clone, Copy, Debug, PartialEq, Eq, Structural)]
pub struct MetersPerSecond(pub i64);

/// A duration. The view is the count of duration units, which are
/// milliseconds.
#[derive(Clone, Copy, Debug, PartialEq, Eq, Structural)]
pub struct Seconds(pub i64);

impl View for Meters {
    type V = int;

    open spec fn view(&self) -> int {
        self.0 as int
    }
}

impl View for MetersPerSecond {
    type V = int;

    open spec fn view(&self) -> int {
        self.0 as int
    }
}

impl View for Seconds {
    type V = int;

    open spec fn view(&self) -> int {
        self.0 as int
    }
}

/// The representable count nearest to `v`.
pub open spec fn saturated(v: int) -> int {
    if v < i64::MIN {
        i64::MIN as int
    } else if v > i64::MAX {
        i64::MAX as int
    } else {
        v
    }
}

/// `n / d` rounded toward zero.
pub open spec fn quotient_toward_zero(n: int, d: int) -> int
    recommends
        d > 0,
{
    if n >= 0 {
        n / d
    } else {
        -((-n) / d)
    }
}

/// The pixel count of a length of `units`: rounded toward zero, and held
/// within the range of a screen coordinate.
pub open spec fn pixel_count(units: int) -> int {
    let exact = quotient_toward_zero(units * PIXELS_PER_METER, UNITS_PER_METER as int);
    if exact < i32::MIN {
        i32::MIN as int
    } else if exact > i32::MAX {
        i32::MAX as int
    } else {
        exact
    }
}

/// Brings a wide intermediate result back into the representable range.
pub fn saturate(v: i128) -> (r: i64)
    ensures
        r as int == saturated(v as int),
{
    if v < i64::MIN as i128 {
        i64::MIN
    } else if v > i64::MAX as i128 {
        i64::MAX
    } else {
        v as i64
    }
}

impl Meters {
    /// The length of `whole` metres.
    pub fn from_whole(whole: i32) -> (m: Meters)
        ensures
            m@ == whole * UNITS_PER_METER,
    {
        Meters(whole as i64 * UNITS_PER_METER)
    }
}

impl MetersPerSecond {
    /// The velocity of `whole` metres per second.
    pub fn from_whole(whole: i32) -> (v: MetersPerSecond)
        ensures
            v@ == whole * UNITS_PER_METER_PER_SECOND,
    {
        MetersPerSecond(whole as i64 * UNITS_PER_METER_PER_SECOND)
    }
}

/// The duration of `millis` milliseconds.
pub fn millis_to_seconds(millis: Millis) -> (s: Seconds)
    ensures
        s@ == millis,
{
    Seconds(millis as i64)
}

/// Lengths that can be drawn: the screen distance that a value covers.
pub trait ToPixels: Sized {
    /// The pixel count that `to_pixels` returns.
    spec fn pixels(self) -> int;

    fn to_pixels(self) -> (px: i32)
        ensures
            px as int == self.pixels(),
    ;
}

impl ToPixels for Meters {
    open spec fn pixels(self) -> int {
        pixel_count(self@)
    }

    fn to_pixels(self) -> (px: i32) {
        let scaled: i128 = self.0 as i128 * PIXELS_PER_METER as i128;
        let per_meter: i128 = UNITS_PER_METER as i128;
        assert(scaled == self.0 * 60 && per_meter == 100_000_000);
        let exact: i128 = if scaled >= 0 {
            scaled / per_meter
        } else {
            -((-scaled) / per_meter)
        };
        if exact < i32::MIN as i128 {
            i32::MIN
        } else if exact > i32::MAX as i128 {
            i32::MAX
        } else {
            exact as i32
        }
    }
}

} // verus!
