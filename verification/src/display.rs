//! What the game asks of the terminal, as plain values.
//!
//! The library never touches the terminal. It describes each thing to be
//! done as an [`Action`], and the program around it carries the actions out
//! in the order given.

use vstd::prelude::*;

use crate::frog::Frog;
use crate::obstacle::Obstacle;

verus! {

/// Glyph that shows the frog.
pub const FROG_CHAR: char = '0';

/// Glyph that shows an obstacle.
pub const OBSTACLE_CHAR: char = '#';

/// Glyph that wipes a cell.
pub const BLANK_CHAR: char = ' ';

/// A colour of the terminal's palette.
#[derive(Clone, Copy, Debug, PartialEq, Eq, Structural)]
pub enum Color {
    Red,
    White,
}

/// One glyph written at one cell. Where a colour is absent the terminal's
/// current one is used; where either is present both are reset after the
/// glyph is written.
#[derive(Clone, Copy, Debug, PartialEq, Eq)]
pub struct Paint {
    pub x: u16,
    pub y: u16,
    pub glyph: char,
    pub foreground: Option<Color>,
    pub background: Option<Color>,
}

/// One thing for the program around the library to do.
#[derive(Clone, Copy, Debug, PartialEq, Eq)]
pub enum Action {
    /// Clear the whole screen.
    ClearScreen,
    /// Hide the cursor.
    HideCursor,
    /// Show the cursor.
    ShowCursor,
    /// Move the cursor to a cell and write a glyph there.
    Put(Paint),
    /// Wait for this many milliseconds.
    Sleep(u64),
}

/// The frog's glyph at the frog's cell.
pub open spec fn frog_paint(frog: Frog) -> Paint {
    Paint { x: frog.x, y: frog.y, glyph: FROG_CHAR, foreground: None, background: None }
}

/// A blank at the frog's cell.
pub open spec fn frog_blank(frog: Frog) -> Paint {
    Paint { x: frog.x, y: frog.y, glyph: BLANK_CHAR, foreground: None, background: None }
}

/// The paint that shows the frog.
pub fn draw_frog(frog: &Frog) -> (paint: Paint)
    ensures
        paint == frog_paint(*frog),
{
    Paint { x: frog.x, y: frog.y, glyph: FROG_CHAR, foreground: None, background: None }
}

/// The paint that wipes the frog off the screen.
pub fn clear_frog(frog: &Frog) -> (paint: Paint)
    ensures
        paint == frog_blank(*frog),
{
    Paint { x: frog.x, y: frog.y, glyph: BLANK_CHAR, foreground: None, background: None }
}

/// The paints that show the obstacles: one for each, in their order.
pub open spec fn obstacle_paints(obstacles: Seq<Obstacle>) -> Seq<Paint> {
    Seq::new(obstacles.len(), |i: int| obstacles[i].paint())
}

/// The paints that wipe the obstacles off the screen: one for each, in their
/// order.
pub open spec fn obstacle_blanks(obstacles: Seq<Obstacle>) -> Seq<Paint> {
    Seq::new(obstacles.len(), |i: int| obstacles[i].blank())
}

/// The paints that show the obstacles, one for each, in their order.
pub fn draw_obstacles(obstacles: &[Obstacle]) -> (paints: Vec<Paint>)
    ensures
        paints@ == obstacle_paints(obstacles@),
{
    let mut paints: Vec<Paint> = Vec::new();
    let mut i: usize = 0;
    while i < obstacles.len()
        invariant
            i <= obstacles.len(),
            paints@.len() == i,
            forall|j: int| 0 <= j < i ==> paints@[j] == obstacles@[j].paint(),
        decreases obstacles.len() - i,
    {
        paints.push(obstacles[i].draw());
        i += 1;
    }
    paints
}

/// The paints that wipe the obstacles off the screen, one for each, in
/// their order.
pub fn clear_obstacles(obstacles: &[Obstacle]) -> (paints: Vec<Paint>)
    ensures
        paints@ == obstacle_blanks(obstacles@),
{
    let mut paints: Vec<Paint> = Vec::new();
    let mut i: usize = 0;
    while i < obstacles.len()
        invariant
            i <= obstacles.len(),
            paints@.len() == i,
            forall|j: int| 0 <= j < i ==> paints@[j] == obstacles@[j].blank(),
        decreases obstacles.len() - i,
    {
        paints.push(obstacles[i].clear());
        i += 1;
    }
    paints
}

} // verus!
