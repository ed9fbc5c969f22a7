//! Where chance enters the game: raw draws from the random number generator,
//! and the verified arithmetic that turns a draw into a place, a direction or
//! a choice.

use vstd::prelude::*;
use crate::direction::{unit_component, Direction};
use crate::geometry::{Position, Viewport};

verus! {

/// Calls `rand::random::<u32>()`, which takes the next 32 bits from the
/// thread-local generator. Nothing is claimed of the value: every `u32` may
/// come back, and two calls may differ. The call panics only where the
/// operating system cannot seed the generator on the thread's first draw.
#[verifier::external_body]
pub(crate) fn random_draw() -> (r: u32) {
    rand::random::<u32>()
}

/// The share `draw / 2^32` of `extent`, rounded down.
pub open spec fn scaled(draw: u32, extent: u32) -> int {
    (draw * extent) / 0x1_0000_0000
}

/// Reads `draw` as the fraction `draw / 2^32` of `[0, 1)` and takes that
/// share of `extent`.
pub fn scale(draw: u32, extent: u32) -> (r: u32)
    ensures
        r == scaled(draw, extent),
        extent > 0 ==> r < extent,
        extent == 0 ==> r == 0,
{
    assert(draw * extent <= 0xffff_ffff * extent && 0xffff_ffff * extent <= 0xffff_ffff
        * 0xffff_ffff && 0 <= draw * extent) by (nonlinear_arith)
        requires
            0 <= draw <= 0xffff_ffff,
            0 <= extent <= 0xffff_ffff,
    ;
    let product: u64 = draw as u64 * extent as u64;
    (product / 0x1_0000_0000) as u32
}

/// The odd numerator `2 * (draw / 4) + 1`: over `2^31` it is the midpoint of
/// one of `2^30` equal cells of `[0, 1)`, and never zero.
pub open spec fn cell_midpoint(draw: u32) -> int {
    2 * (draw / 4) + 1
}

/// A place inside the viewport: each draw is the fraction of the extent at
/// which the place lies on that axis.
pub fn position_from_draws(viewport: Viewport, draw_x: u32, draw_y: u32) -> (r: Position)
    ensures
        r.x == scaled(draw_x, viewport.width),
        r.y == scaled(draw_y, viewport.height),
        viewport.covers(r),
{
    Position {
        x: scale(draw_x, viewport.width) as i64,
        y: scale(draw_y, viewport.height) as i64,
    }
}

/// A direction into the first quadrant: the unit vector along
/// `(cell_midpoint(draw_x), cell_midpoint(draw_y))`.
pub fn direction_from_draws(draw_x: u32, draw_y: u32) -> (r: Direction)
    ensures
        r@ == (
            unit_component(cell_midpoint(draw_x), cell_midpoint(draw_y)),
            unit_component(cell_midpoint(draw_y), cell_midpoint(draw_x)),
        ),
        r.is_unit(),
        r@.0 >= 0,
        r@.1 >= 0,
{
    let x: i32 = (2 * (draw_x / 4) + 1) as i32;
    let y: i32 = (2 * (draw_y / 4) + 1) as i32;
    Direction::normalized(x, y)
}

/// The sound played when an enemy bounces off an edge; there are two.
#[derive(Clone, Copy, Debug, PartialEq, Eq, Structural)]
pub enum BounceCue {
    First,
    Second,
}

/// The cue that a draw stands for: the first when the draw, read as a
/// fraction of `[0, 1)`, is above one half, and the second otherwise.
pub open spec fn cue_of(draw: u32) -> BounceCue {
    if draw > 0x8000_0000 {
        BounceCue::First
    } else {
        BounceCue::Second
    }
}

/// Picks the cue that the draw stands for; see [`cue_of`].
pub fn choose_cue(draw: u32) -> (r: BounceCue)
    ensures
        r == cue_of(draw),
{
    if draw > 0x8000_0000 {
        BounceCue::First
    } else {
        BounceCue::Second
    }
}

} // verus!
