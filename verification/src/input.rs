//! Keys, and what the game takes them to mean.

use vstd::prelude::*;

verus! {

/// A key as the game sees it.
#[derive(Clone, Copy, Debug, PartialEq, Eq)]
pub enum Key {
    /// The arrow up.
    Up,
    /// The arrow down.
    Down,
    /// The arrow to the left.
    Left,
    /// The arrow to the right.
    Right,
    /// A key that stands for a character.
    Char(char),
    /// Any other key.
    Other,
}

/// What the player asks for in one tick.
#[derive(Clone, Copy, Debug, PartialEq, Eq, Structural)]
pub enum Intent {
    MoveUp,
    MoveDown,
    MoveLeft,
    MoveRight,
    /// End the game.
    Quit,
    /// Nothing: the frog stays where it is.
    Ignore,
}

/// The meaning of one tick's input. `None` stands for a tick without a key
/// press. The arrows and the small letters `w`, `s`, `a`, `d` move the frog,
/// the small letter `q` ends the game, and everything else means nothing.
pub open spec fn intent_of(event: Option<Key>) -> Intent {
    if event == Some(Key::Up) || event == Some(Key::Char('w')) {
        Intent::MoveUp
    } else if event == Some(Key::Down) || event == Some(Key::Char('s')) {
        Intent::MoveDown
    } else if event == Some(Key::Left) || event == Some(Key::Char('a')) {
        Intent::MoveLeft
    } else if event == Some(Key::Right) || event == Some(Key::Char('d')) {
        Intent::MoveRight
    } else if event == Some(Key::Char('q')) {
        Intent::Quit
    } else {
        Intent::Ignore
    }
}

/// Reads one tick's input.
pub fn decode(event: Option<Key>) -> (intent: Intent)
    ensures
        intent == intent_of(event),
{
    match event {
        Some(Key::Up) => Intent::MoveUp,
        Some(Key::Down) => Intent::MoveDown,
        Some(Key::Left) => Intent::MoveLeft,
        Some(Key::Right) => Intent::MoveRight,
        Some(Key::Char(c)) => {
            if c == 'w' {
                Intent::MoveUp
            } else if c == 's' {
                Intent::MoveDown
            } else if c == 'a' {
                Intent::MoveLeft
            } else if c == 'd' {
                Intent::MoveRight
            } else if c == 'q' {
                Intent::Quit
            } else {
                Intent::Ignore
            }
        },
        Some(Key::Other) => Intent::Ignore,
        None => Intent::Ignore,
    }
}

} // verus!
