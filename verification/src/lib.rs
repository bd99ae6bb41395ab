//! Simulation core of a grid-based snake game: a discrete-time state machine
//! tracking snake position, movement, growth, self-collision, and food
//! placement on a toroidal grid, independent of rendering and input plumbing.

use vstd::prelude::*;

pub mod game;
pub mod grid;
pub mod rng;
pub mod snake;

verus! {

/// Width of the playing grid, in cells.
pub const GRID_WIDTH: i16 = 30;

/// Height of the playing grid, in cells.
pub const GRID_HEIGHT: i16 = 20;

} // verus!
