//! The game: one frog, its obstacles, and the tick that drives them.

use vstd::prelude::*;

use crate::collision::{after_collision, handle_collision};
use crate::display::{
    clear_frog, clear_obstacles, draw_frog, draw_obstacles, frog_blank, frog_paint,
    obstacle_blanks, obstacle_paints, Action, Paint,
};
use crate::frog::Frog;
use crate::grid::{FRAME_RATE, MAX_LIVES, NUM_OBSTACLES, RESPAWN_X, RESPAWN_Y};
use crate::input::{decode, intent_of, Intent, Key};
use crate::obstacle::Obstacle;
use crate::spawn::generate_obstacles;

verus! {

/// Whether the game goes on.
#[derive(Clone, Copy, Debug, PartialEq, Eq, Structural)]
pub enum Phase {
    /// The game takes ticks.
    Running,
    /// The player has quit. Nothing changes any more.
    Terminated,
}

/// The state of a game.
#[derive(Debug)]
pub struct Game {
    pub frog: Frog,
    pub obstacles: Vec<Obstacle>,
    pub phase: Phase,
}

/// The state of a game as a mathematical value.
pub struct GameView {
    pub frog: Frog,
    pub obstacles: Seq<Obstacle>,
    pub phase: Phase,
}

impl View for Game {
    type V = GameView;

    open spec fn view(&self) -> GameView {
        GameView { frog: self.frog, obstacles: self.obstacles@, phase: self.phase }
    }
}

/// The frog a game begins with: at the respawn cell, with all its lives.
pub open spec fn fresh_frog() -> Frog {
    Frog { x: RESPAWN_X, y: RESPAWN_Y, lives: MAX_LIVES }
}

/// The frog after it has obeyed the player.
pub open spec fn steered(frog: Frog, intent: Intent) -> Frog {
    match intent {
        Intent::MoveUp => frog.moved_up(),
        Intent::MoveDown => frog.moved_down(),
        Intent::MoveLeft => frog.moved_left(),
        Intent::MoveRight => frog.moved_right(),
        Intent::Quit => frog,
        Intent::Ignore => frog,
    }
}

/// The obstacles after each has advanced by one tick.
pub open spec fn advanced(obstacles: Seq<Obstacle>) -> Seq<Obstacle> {
    Seq::new(obstacles.len(), |i: int| obstacles[i].stepped())
}

/// The actions that write the given paints, in their order.
pub open spec fn puts(paints: Seq<Paint>) -> Seq<Action> {
    Seq::new(paints.len(), |i: int| Action::Put(paints[i]))
}

impl GameView {
    /// Every obstacle has its top left cell on the grid.
    pub open spec fn obstacles_in_bounds(self) -> bool {
        forall|i: int| 0 <= i < self.obstacles.len() ==> (#[trigger] self.obstacles[i]).in_bounds()
    }

    /// The frog and the obstacles are on the grid.
    pub open spec fn wf(self) -> bool {
        self.frog.in_bounds() && self.obstacles_in_bounds()
    }

    /// The tick with this input goes through: the game is running and the
    /// player does not quit.
    pub open spec fn plays(self, event: Option<Key>) -> bool {
        self.phase == Phase::Running && intent_of(event) != Intent::Quit
    }

    /// The state after one tick with the given input.
    ///
    /// A game that has ended stays as it is. In a running game the input `q`
    /// ends the game there and then, and nothing else changes. Any other
    /// input first moves the frog as asked, then every obstacle advances, and
    /// last the frog is checked against the obstacles where they now are.
    pub open spec fn next(self, event: Option<Key>) -> GameView {
        if self.phase == Phase::Terminated {
            self
        } else if intent_of(event) == Intent::Quit {
            GameView { frog: self.frog, obstacles: self.obstacles, phase: Phase::Terminated }
        } else {
            let frog = steered(self.frog, intent_of(event));
            let obstacles = advanced(self.obstacles);
            GameView { frog: after_collision(frog, obstacles), obstacles, phase: Phase::Running }
        }
    }

    /// The actions that one tick with the given input asks for: none where
    /// the game has ended or ends now; otherwise a blank at the cell the frog
    /// has moved to, a blank at the cell of each obstacle before it advances,
    /// and a pause of one frame.
    pub open spec fn actions(self, event: Option<Key>) -> Seq<Action> {
        if self.plays(event) {
            seq![Action::Put(frog_blank(steered(self.frog, intent_of(event))))] + puts(
                obstacle_blanks(self.obstacles),
            ) + seq![Action::Sleep(FRAME_RATE)]
        } else {
            Seq::empty()
        }
    }

    /// The actions that show the state: the frog first, then each obstacle.
    pub open spec fn frame(self) -> Seq<Action> {
        seq![Action::Put(frog_paint(self.frog))] + puts(obstacle_paints(self.obstacles))
    }

    /// The state after one tick for each of the given inputs, in their order.
    pub open spec fn after(self, events: Seq<Option<Key>>) -> GameView
        decreases events.len(),
    {
        if events.len() == 0 {
            self
        } else {
            self.after(events.drop_last()).next(events.last())
        }
    }
}

/// The actions that prepare the terminal for a game: clear the screen, then
/// hide the cursor.
pub fn startup() -> (actions: Vec<Action>)
    ensures
        actions@ == seq![Action::ClearScreen, Action::HideCursor],
{
    let mut actions: Vec<Action> = Vec::new();
    actions.push(Action::ClearScreen);
    actions.push(Action::HideCursor);
    actions
}

/// The actions that give the terminal back after a game: show the cursor,
/// then clear the screen.
pub fn shutdown() -> (actions: Vec<Action>)
    ensures
        actions@ == seq![Action::ShowCursor, Action::ClearScreen],
{
    let mut actions: Vec<Action> = Vec::new();
    actions.push(Action::ShowCursor);
    actions.push(Action::ClearScreen);
    actions
}

/// Appends to `actions` one that writes each of `paints`, in their order.
fn push_puts(actions: &mut Vec<Action>, paints: &Vec<Paint>)
    ensures
        final(actions)@ == old(actions)@ + puts(paints@),
{
    let mut i: usize = 0;
    while i < paints.len()
        invariant
            i <= paints.len(),
            actions@.len() == old(actions)@.len() + i,
            forall|j: int| 0 <= j < old(actions)@.len() ==> actions@[j] == old(actions)@[j],
            forall|j: int|
                0 <= j < i ==> actions@[old(actions)@.len() + j] == Action::Put(paints@[j]),
        decreases paints.len() - i,
    {
        actions.push(Action::Put(paints[i]));
        i += 1;
    }
}

/// Advances every obstacle by one tick.
pub fn advance_obstacles(obstacles: &mut Vec<Obstacle>)
    ensures
        final(obstacles)@ == advanced(old(obstacles)@),
{
    let mut i: usize = 0;
    while i < obstacles.len()
        invariant
            i <= obstacles.len(),
            obstacles@.len() == old(obstacles)@.len(),
            forall|j: int| 0 <= j < i ==> obstacles@[j] == old(obstacles)@[j].stepped(),
            forall|j: int| i <= j < obstacles@.len() ==> obstacles@[j] == old(obstacles)@[j],
        decreases obstacles.len() - i,
    {
        let mut obstacle: Obstacle = obstacles[i];
        obstacle.step();
        obstacles.set(i, obstacle);
        i += 1;
    }
}

impl Game {
    /// A running game with the given obstacles and a fresh frog.
    pub fn new(obstacles: Vec<Obstacle>) -> (game: Game)
        ensures
            game@ == (GameView {
                frog: fresh_frog(),
                obstacles: obstacles@,
                phase: Phase::Running,
            }),
            game@.frog.in_bounds(),
    {
        Game { frog: Frog::new(RESPAWN_X, RESPAWN_Y, MAX_LIVES), obstacles, phase: Phase::Running }
    }

    /// A running game with a fresh frog and obstacles placed by chance. Two
    /// calls need not give the same game.
    pub fn start() -> (game: Game)
        ensures
            game@.frog == fresh_frog(),
            game@.phase == Phase::Running,
            game@.obstacles.len() == NUM_OBSTACLES,
            forall|i: int|
                0 <= i < game@.obstacles.len() ==> (#[trigger] game@.obstacles[i]).spawnable(),
            game@.wf(),
    {
        Game::new(generate_obstacles())
    }

    /// Whether the game still takes ticks.
    pub fn is_running(&self) -> (running: bool)
        ensures
            running == (self@.phase == Phase::Running),
    {
        self.phase == Phase::Running
    }

    /// The actions that show the game as it is: the frog first, then each
    /// obstacle.
    pub fn render(&self) -> (actions: Vec<Action>)
        ensures
            actions@ == self@.frame(),
    {
        let mut actions: Vec<Action> = Vec::new();
        actions.push(Action::Put(draw_frog(&self.frog)));
        let paints = draw_obstacles(self.obstacles.as_slice());
        push_puts(&mut actions, &paints);
        actions
    }

    /// One tick: takes the player's input and returns what is to be done on
    /// the terminal and how long to wait before the next tick.
    ///
    /// A game that has ended stays as it is and asks for nothing. In a
    /// running game the input `q` ends the game at once: neither frog nor
    /// obstacles change, and nothing is asked for. Any other input moves the
    /// frog as asked (or not at all), then the frog and the obstacles are
    /// wiped where they now stand, every obstacle advances, and the frog is
    /// checked against them: where one occupies its cell it loses a life and
    /// goes back to the respawn cell.
    pub fn tick(&mut self, event: Option<Key>) -> (actions: Vec<Action>)
        ensures
            final(self)@ == old(self)@.next(event),
            actions@ == old(self)@.actions(event),
            old(self)@.frog.in_bounds() ==> final(self)@.frog.in_bounds(),
            old(self)@.wf() ==> final(self)@.wf(),
            final(self)@.frog.lives <= old(self)@.frog.lives,
    {
        let mut actions: Vec<Action> = Vec::new();
        if self.phase == Phase::Terminated {
            return actions;
        }
        match decode(event) {
            Intent::MoveUp => self.frog.move_up(),
            Intent::MoveDown => self.frog.move_down(),
            Intent::MoveLeft => self.frog.move_left(),
            Intent::MoveRight => self.frog.move_right(),
            Intent::Quit => {
                self.phase = Phase::Terminated;
                return actions;
            },
            Intent::Ignore => {},
        }
        actions.push(Action::Put(clear_frog(&self.frog)));
        let blanks = clear_obstacles(self.obstacles.as_slice());
        push_puts(&mut actions, &blanks);
        advance_obstacles(&mut self.obstacles);
        handle_collision(&mut self.frog, self.obstacles.as_slice());
        actions.push(Action::Sleep(FRAME_RATE));
        actions
    }
}

} // verus!
