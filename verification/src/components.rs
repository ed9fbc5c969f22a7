//! What lives on the playing field.

use vstd::prelude::*;
use crate::direction::Direction;
use crate::geometry::Position;

verus! {

/// The ball that the keyboard steers. At most one exists at a time.
#[derive(Clone, Copy, Debug, PartialEq, Eq, Structural)]
pub struct Player {
    pub position: Position,
}

/// A ball that drifts along its direction and bounces off the edges.
#[derive(Clone, Copy, Debug, PartialEq, Eq, Structural)]
pub struct Enemy {
    pub position: Position,
    pub direction: Direction,
}

/// A star waiting to be collected.
#[derive(Clone, Copy, Debug, PartialEq, Eq, Structural)]
pub struct Star {
    pub position: Position,
}

} // verus!
