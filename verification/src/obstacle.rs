//! Obstacles: bars that sweep along a row and wrap round at its ends.

use vstd::prelude::*;

use crate::display::{Color, Paint, BLANK_CHAR, OBSTACLE_CHAR};
use crate::grid::{on_grid, HEIGHT, WIDTH};

verus! {

/// A bar of `width` by `height` cells whose top left cell is `(x, y)` and
/// which moves `speed` columns to the right at each tick (to the left where
/// `speed` is negative).
#[derive(Clone, Copy, Debug, PartialEq, Eq, Structural)]
pub struct Obstacle {
    pub x: u16,
    pub y: u16,
    pub width: u16,
    pub height: u16,
    pub speed: i16,
}

impl Obstacle {
    /// The obstacle's top left cell lies on the grid.
    pub open spec fn in_bounds(self) -> bool {
        on_grid(self.x as int, self.y as int)
    }

    /// The obstacle is one that a new game may begin with: anywhere in a row
    /// other than the top and the bottom one, one to three cells wide, one
    /// cell high, and no faster than two columns a tick.
    pub open spec fn spawnable(self) -> bool {
        &&& self.x < WIDTH
        &&& 1 <= self.y < HEIGHT - 1
        &&& 1 <= self.width <= 3
        &&& self.height == 1
        &&& -2 <= self.speed <= 2
    }

    /// The cell `(x, y)` is one of those that the obstacle occupies.
    pub open spec fn covers(self, x: int, y: int) -> bool {
        &&& self.x <= x < self.x + self.width
        &&& self.y <= y < self.y + self.height
    }

    /// The column the obstacle is in after one tick: `speed` columns on,
    /// counted round the grid.
    pub open spec fn next_x(self) -> int {
        (self.x + self.speed) % (WIDTH as int)
    }

    /// The obstacle after one tick.
    pub open spec fn stepped(self) -> Obstacle {
        Obstacle {
            x: self.next_x() as u16,
            y: self.y,
            width: self.width,
            height: self.height,
            speed: self.speed,
        }
    }

    /// The obstacle's glyph, white on red, at its top left cell.
    pub open spec fn paint(self) -> Paint {
        Paint {
            x: self.x,
            y: self.y,
            glyph: OBSTACLE_CHAR,
            foreground: Some(Color::White),
            background: Some(Color::Red),
        }
    }

    /// A blank at the obstacle's top left cell.
    pub open spec fn blank(self) -> Paint {
        Paint { x: self.x, y: self.y, glyph: BLANK_CHAR, foreground: None, background: None }
    }

    /// An obstacle with the given place, extent and speed.
    pub fn new(x: u16, y: u16, width: u16, height: u16, speed: i16) -> (obstacle: Obstacle)
        ensures
            obstacle == (Obstacle { x, y, width, height, speed }),
    {
        Obstacle { x, y, width, height, speed }
    }

    /// The paint that shows the obstacle.
    pub fn draw(&self) -> (paint: Paint)
        ensures
            paint == self.paint(),
    {
        Paint {
            x: self.x,
            y: self.y,
            glyph: OBSTACLE_CHAR,
            foreground: Some(Color::White),
            background: Some(Color::Red),
        }
    }

    /// The paint that wipes the obstacle off the screen.
    pub fn clear(&self) -> (paint: Paint)
        ensures
            paint == self.blank(),
    {
        Paint { x: self.x, y: self.y, glyph: BLANK_CHAR, foreground: None, background: None }
    }

    /// Advances the obstacle by one tick. It leaves the grid at one end of
    /// its row and comes back at the other, so that afterwards its column is
    /// on the grid whatever it was before. Row, extent and speed stay.
    pub fn step(&mut self)
        ensures
            *final(self) == old(self).stepped(),
            final(self).x == old(self).next_x(),
            final(self).x < WIDTH,
    {
        let sum: i32 = self.x as i32 + self.speed as i32;
        // The divisor is not zero, so there is a remainder, and it is a column.
        if let Some(column) = sum.checked_rem_euclid(WIDTH as i32) {
            self.x = column as u16;
        }
    }

    /// Whether the obstacle occupies the cell `(x, y)`.
    pub fn overlaps(&self, x: u16, y: u16) -> (hit: bool)
        ensures
            hit == self.covers(x as int, y as int),
    {
        let in_columns: bool = x >= self.x && (x as u32) < self.x as u32 + self.width as u32;
        let in_rows: bool = y >= self.y && (y as u32) < self.y as u32 + self.height as u32;
        in_columns && in_rows
    }
}

} // verus!
