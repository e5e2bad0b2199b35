//! The frog: a position on the grid and a count of lives.

use vstd::prelude::*;

use crate::grid::{on_grid, HEIGHT, WIDTH};

verus! {

/// The player's token.
#[derive(Clone, Copy, Debug, PartialEq, Eq, Structural)]
pub struct Frog {
    pub x: u16,
    pub y: u16,
    pub lives: u8,
}

impl Frog {
    /// The frog stands on a cell of the grid.
    pub open spec fn in_bounds(self) -> bool {
        on_grid(self.x as int, self.y as int)
    }

    /// The frog one row further up, or unmoved in the top row.
    pub open spec fn moved_up(self) -> Frog {
        Frog {
            x: self.x,
            y: if self.y > 0 { (self.y - 1) as u16 } else { self.y },
            lives: self.lives,
        }
    }

    /// The frog one row further down, or unmoved where the row below is off
    /// the grid.
    pub open spec fn moved_down(self) -> Frog {
        Frog {
            x: self.x,
            y: if self.y + 1 < HEIGHT { (self.y + 1) as u16 } else { self.y },
            lives: self.lives,
        }
    }

    /// The frog one column further left, or unmoved in the leftmost column.
    pub open spec fn moved_left(self) -> Frog {
        Frog {
            x: if self.x > 0 { (self.x - 1) as u16 } else { self.x },
            y: self.y,
            lives: self.lives,
        }
    }

    /// The frog one column further right, or unmoved where the column to the
    /// right is off the grid.
    pub open spec fn moved_right(self) -> Frog {
        Frog {
            x: if self.x + 1 < WIDTH { (self.x + 1) as u16 } else { self.x },
            y: self.y,
            lives: self.lives,
        }
    }

    /// A frog at `(x, y)` with `lives` lives.
    pub fn new(x: u16, y: u16, lives: u8) -> (frog: Frog)
        ensures
            frog == (Frog { x, y, lives }),
    {
        Frog { x, y, lives }
    }

    /// Moves one row up; a no-op in the top row.
    pub fn move_up(&mut self)
        ensures
            *final(self) == old(self).moved_up(),
            old(self).in_bounds() ==> final(self).in_bounds(),
    {
        if self.y > 0 {
            self.y -= 1;
        }
    }

    /// Moves one row down; a no-op in the bottom row.
    pub fn move_down(&mut self)
        ensures
            *final(self) == old(self).moved_down(),
            old(self).in_bounds() ==> final(self).in_bounds(),
    {
        if self.y < HEIGHT - 1 {
            self.y += 1;
        }
    }

    /// Moves one column to the left; a no-op in the leftmost column.
    pub fn move_left(&mut self)
        ensures
            *final(self) == old(self).moved_left(),
            old(self).in_bounds() ==> final(self).in_bounds(),
    {
        if self.x > 0 {
            self.x -= 1;
        }
    }

    /// Moves one column to the right; a no-op in the rightmost column.
    pub fn move_right(&mut self)
        ensures
            *final(self) == old(self).moved_right(),
            old(self).in_bounds() ==> final(self).in_bounds(),
    {
        if self.x < WIDTH - 1 {
            self.x += 1;
        }
    }
}

} // verus!
