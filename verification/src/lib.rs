//! The per-tick rules of a small arcade game: a player ball dodges enemy balls
//! and collects stars inside a rectangular viewport.
//!
//! Everything is integer arithmetic, so that every rule can be stated and
//! proved exactly. Lengths are thousandths of a pixel, directions are lattice
//! vectors one million units long, time is nanoseconds, and chance comes in
//! as raw 32-bit draws.
//!
//! - [`geometry`]: positions, the viewport, confinement, movement, overlap.
//! - [`direction`]: unit directions and the integer square root behind them.
//! - [`chance`]: the random draws and what a draw stands for.
//! - [`components`]: the player, the enemies, the stars.
//! - [`resources`]: the score, the list of finished sessions, the timers.
//! - [`events`]: the game-over signal and its listeners.
//! - [`systems`]: the update functions that a scheduler calls once per tick.

pub mod chance;
pub mod components;
pub mod direction;
pub mod events;
pub mod geometry;
pub mod resources;
pub mod systems;
