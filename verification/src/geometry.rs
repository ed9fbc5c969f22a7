//! Positions, the viewport, and keeping a sprite inside it.

use vstd::prelude::*;
use crate::direction::Direction;

verus! {

/// How many length units make one pixel.
pub const UNITS_PER_PIXEL: u32 = 1_000;

/// A point of the playing field, in length units.
#[derive(Clone, Copy, Debug, PartialEq, Eq, Structural)]
pub struct Position {
    pub x: i64,
    pub y: i64,
}

/// The visible rectangle `[0, width] x [0, height]`, in length units.
#[derive(Clone, Copy, Debug, PartialEq, Eq, Structural)]
pub struct Viewport {
    pub width: u32,
    pub height: u32,
}

/// `x` moved to the nearer end of `[lo, hi]` when it lies outside: below `lo`
/// it becomes `lo`, otherwise above `hi` it becomes `hi`.
pub open spec fn clamp_axis(x: int, lo: int, hi: int) -> int {
    if x < lo {
        lo
    } else if x > hi {
        hi
    } else {
        x
    }
}

impl Viewport {
    /// The point lies in the viewport, short of its far edges.
    pub open spec fn covers(self, p: Position) -> bool {
        &&& 0 <= p.x <= self.width
        &&& 0 <= p.y <= self.height
        &&& self.width > 0 ==> p.x < self.width
        &&& self.height > 0 ==> p.y < self.height
    }

    /// A sprite of diameter `size` fits between the edges on both axes.
    pub open spec fn fits(self, size: u32) -> bool {
        size / 2 <= self.width - size / 2 && size / 2 <= self.height - size / 2
    }
}

impl Position {
    /// The centre of a sprite of diameter `size` keeps the whole sprite inside
    /// the viewport.
    pub open spec fn in_bounds(self, size: u32, viewport: Viewport) -> bool {
        &&& size / 2 <= self.x <= viewport.width - size / 2
        &&& size / 2 <= self.y <= viewport.height - size / 2
    }

    /// This position with each axis clamped into
    /// `[size / 2, extent - size / 2]`.
    pub open spec fn confined(self, size: u32, viewport: Viewport) -> Position {
        Position {
            x: clamp_axis(self.x as int, (size / 2) as int, viewport.width - size / 2) as i64,
            y: clamp_axis(self.y as int, (size / 2) as int, viewport.height - size / 2) as i64,
        }
    }

    /// Clamps the centre of a sprite of diameter `size` into the viewport.
    pub fn confine(self, size: u32, viewport: Viewport) -> (r: Position)
        ensures
            r == self.confined(size, viewport),
            viewport.fits(size) ==> r.in_bounds(size, viewport),
            self.in_bounds(size, viewport) ==> r == self,
    {
        let half: i64 = (size / 2) as i64;
        Position {
            x: confine_axis(self.x, half, viewport.width as i64 - half),
            y: confine_axis(self.y, half, viewport.height as i64 - half),
        }
    }
}

/// Clamps one coordinate; see [`clamp_axis`].
pub fn confine_axis(x: i64, lo: i64, hi: i64) -> (r: i64)
    ensures
        r == clamp_axis(x as int, lo as int, hi as int),
{
    if x < lo {
        lo
    } else if x > hi {
        hi
    } else {
        x
    }
}

/// After confinement a sprite that fits the viewport lies inside it.
pub proof fn lemma_confined_in_bounds(p: Position, size: u32, viewport: Viewport)
    requires
        viewport.fits(size),
    ensures
        p.confined(size, viewport).in_bounds(size, viewport),
{
}

/// Confinement leaves a position that is already inside the bounds as it is.
pub proof fn lemma_confined_fixed_point(p: Position, size: u32, viewport: Viewport)
    requires
        p.in_bounds(size, viewport),
    ensures
        p.confined(size, viewport) == p,
{
}

/// Confining twice is confining once, whenever the sprite fits the viewport.
pub proof fn lemma_confined_idempotent(p: Position, size: u32, viewport: Viewport)
    requires
        viewport.fits(size),
    ensures
        p.confined(size, viewport).confined(size, viewport) == p.confined(size, viewport),
{
    lemma_confined_in_bounds(p, size, viewport);
    lemma_confined_fixed_point(p.confined(size, viewport), size, viewport);
}

/// What the product of a direction component, a speed in length units per
/// second and a time span in nanoseconds is divided by to give a length:
/// direction units per unit vector times nanoseconds per second.
pub const STEP_SCALE: u64 = 1_000_000_000_000_000;

/// How far a body moves along one axis: `component * speed * nanos /
/// STEP_SCALE`, rounded towards zero.
pub open spec fn displacement(component: int, speed: int, nanos: int) -> int {
    if component < 0 {
        -(((-component) * speed * nanos) / (STEP_SCALE as int))
    } else {
        (component * speed * nanos) / (STEP_SCALE as int)
    }
}

/// `v`, or the end of the `i64` range that it lies beyond.
pub open spec fn saturated(v: int) -> int {
    clamp_axis(v, i64::MIN as int, i64::MAX as int)
}

/// One coordinate after moving for `nanos` nanoseconds at `speed` along a
/// direction whose component on this axis is `component`.
pub open spec fn stepped(x: int, component: int, speed: int, nanos: int) -> int {
    saturated(x + displacement(component, speed, nanos))
}

/// Moves one coordinate; see [`stepped`].
pub fn step_axis(x: i64, component: i32, speed: u32, nanos: u64) -> (r: i64)
    ensures
        r == stepped(x as int, component as int, speed as int, nanos as int),
{
    let reach: u64 = if component < 0 {
        (-(component as i64)) as u64
    } else {
        component as u64
    };
    assert(reach * speed <= 0x8000_0000 * 0xffff_ffff) by (nonlinear_arith)
        requires
            0 <= reach <= 0x8000_0000,
            0 <= speed <= 0xffff_ffff,
    ;
    let rate: u64 = reach * (speed as u64);
    assert(rate * nanos <= 0x7fff_ffff_8000_0000 * 0xffff_ffff_ffff_ffff) by (nonlinear_arith)
        requires
            0 <= rate <= 0x7fff_ffff_8000_0000,
            0 <= nanos <= 0xffff_ffff_ffff_ffff,
    ;
    let length: u128 = (rate as u128 * nanos as u128) / (STEP_SCALE as u128);
    assert(reach * speed * nanos == rate * nanos);
    let target: i128 = if component < 0 {
        x as i128 - length as i128
    } else {
        x as i128 + length as i128
    };
    if target < i64::MIN as i128 {
        i64::MIN
    } else if target > i64::MAX as i128 {
        i64::MAX
    } else {
        target as i64
    }
}

impl Position {
    /// This position after moving for `nanos` nanoseconds at `speed` length
    /// units per second along the direction with components `heading`.
    pub open spec fn advanced(self, heading: (int, int), speed: u32, nanos: u64) -> Position {
        Position {
            x: stepped(self.x as int, heading.0, speed as int, nanos as int) as i64,
            y: stepped(self.y as int, heading.1, speed as int, nanos as int) as i64,
        }
    }

    /// Moves for `nanos` nanoseconds at `speed` length units per second along
    /// `direction`. A coordinate that would leave the `i64` range stops at
    /// its end.
    pub fn advance(self, direction: &Direction, speed: u32, nanos: u64) -> (r: Position)
        ensures
            r == self.advanced(direction@, speed, nanos),
    {
        Position {
            x: step_axis(self.x, direction.x(), speed, nanos),
            y: step_axis(self.y, direction.y(), speed, nanos),
        }
    }
}

/// The square of the distance between two points.
pub open spec fn distance_squared(a: Position, b: Position) -> int {
    (a.x - b.x) * (a.x - b.x) + (a.y - b.y) * (a.y - b.y)
}

/// Two round sprites overlap: the distance between their centres is less than
/// half the sum of their diameters. Stated without the root and the halving,
/// as `4 * distance^2 < (size_a + size_b)^2`.
pub open spec fn overlapping(a: Position, size_a: u32, b: Position, size_b: u32) -> bool {
    4 * distance_squared(a, b) < (size_a + size_b) * (size_a + size_b)
}

/// Whether two round sprites overlap; see [`overlapping`].
pub fn overlaps(a: Position, size_a: u32, b: Position, size_b: u32) -> (r: bool)
    ensures
        r == overlapping(a, size_a, b, size_b),
{
    let reach: i128 = size_a as i128 + size_b as i128;
    let dx: i128 = a.x as i128 - b.x as i128;
    let dy: i128 = a.y as i128 - b.y as i128;
    if dx >= reach || dx <= -reach || dy >= reach || dy <= -reach {
        assert(4 * (dx * dx + dy * dy) >= reach * reach) by (nonlinear_arith)
            requires
                reach >= 0,
                dx >= reach || dx <= -reach || dy >= reach || dy <= -reach,
        ;
        false
    } else {
        assert(dx * dx <= 0x2_0000_0000 * 0x2_0000_0000 && dy * dy <= 0x2_0000_0000
            * 0x2_0000_0000 && reach * reach <= 0x2_0000_0000 * 0x2_0000_0000 && dx * dx >= 0
            && dy * dy >= 0) by (nonlinear_arith)
            requires
                -reach < dx < reach,
                -reach < dy < reach,
                reach <= 0x2_0000_0000,
        ;
        4 * (dx * dx + dy * dy) < reach * reach
    }
}

} // verus!
