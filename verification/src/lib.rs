//! A small arcade game for the terminal: a frog crosses a grid while
//! obstacles sweep along its rows.
//!
//! The library holds the rules of the game: how the frog and the obstacles
//! move, when they collide, what a collision costs, and what is to be shown
//! on the screen. It neither reads the keyboard nor writes to the terminal;
//! the program around it does both and hands keys in and takes actions out.

pub mod collision;
pub mod display;
pub mod frog;
pub mod game;
pub mod grid;
pub mod input;
pub mod invariants;
pub mod obstacle;
pub mod spawn;
