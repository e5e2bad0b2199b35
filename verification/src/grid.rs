//! The playing field and the constants of the game.

use vstd::prelude::*;

verus! {

/// Number of columns of the grid.
pub const WIDTH: u16 = 20;

/// Number of rows of the grid.
pub const HEIGHT: u16 = 10;

/// Lives the frog starts with.
pub const MAX_LIVES: u8 = 3;

/// Number of obstacles in a game.
pub const NUM_OBSTACLES: usize = 5;

/// Length of one tick, in milliseconds.
pub const FRAME_RATE: u64 = 100;

/// Column in which the frog starts and to which a collision sends it back.
pub const RESPAWN_X: u16 = WIDTH / 2;

/// Row in which the frog starts and to which a collision sends it back.
pub const RESPAWN_Y: u16 = HEIGHT - 1;

/// Whether the cell `(x, y)` lies on the grid. The origin is the top left
/// cell; `x` grows to the right and `y` grows downwards.
pub open spec fn on_grid(x: int, y: int) -> bool {
    0 <= x < WIDTH && 0 <= y < HEIGHT
}

} // verus!
