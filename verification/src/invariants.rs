//! What holds of every game, however long it runs and whatever the player
//! does.

use vstd::prelude::*;

use crate::collision::collides;
use crate::frog::Frog;
use crate::game::{advanced, steered, GameView, Phase};
use crate::grid::{HEIGHT, WIDTH};
use crate::input::{intent_of, Intent, Key};
use crate::obstacle::Obstacle;

verus! {

/// A move against the edge of the grid leaves the frog where it is.
pub proof fn lemma_moves_stop_at_edges(frog: Frog)
    ensures
        frog.y == 0 ==> frog.moved_up() == frog,
        frog.y == HEIGHT - 1 ==> frog.moved_down() == frog,
        frog.x == 0 ==> frog.moved_left() == frog,
        frog.x == WIDTH - 1 ==> frog.moved_right() == frog,
{
}

/// A move leaves a frog that is on the grid on the grid, and never touches
/// its lives.
pub proof fn lemma_moves_stay_on_grid(frog: Frog, intent: Intent)
    requires
        frog.in_bounds(),
    ensures
        steered(frog, intent).in_bounds(),
        steered(frog, intent).lives == frog.lives,
{
}

/// After one step an obstacle's column is on the grid, whatever it was before
/// and whichever way the obstacle moves; its row, extent and speed are as
/// before.
pub proof fn lemma_step_wraps(obstacle: Obstacle)
    ensures
        0 <= obstacle.next_x() < WIDTH,
        obstacle.stepped().x == obstacle.next_x(),
        obstacle.stepped().y == obstacle.y,
        obstacle.stepped().width == obstacle.width,
        obstacle.stepped().height == obstacle.height,
        obstacle.stepped().speed == obstacle.speed,
{
}

/// One tick keeps the frog on the grid, and the obstacles too.
pub proof fn lemma_tick_stays_on_grid(game: GameView, event: Option<Key>)
    ensures
        game.frog.in_bounds() ==> game.next(event).frog.in_bounds(),
        game.obstacles_in_bounds() ==> game.next(event).obstacles_in_bounds(),
        game.wf() ==> game.next(event).wf(),
{
}

/// However many ticks a game runs through, and whatever the input of each,
/// a frog that began on the grid is on the grid.
pub proof fn lemma_frog_stays_on_grid(game: GameView, events: Seq<Option<Key>>)
    requires
        game.frog.in_bounds(),
    ensures
        game.after(events).frog.in_bounds(),
    decreases events.len(),
{
    if events.len() > 0 {
        lemma_frog_stays_on_grid(game, events.drop_last());
        lemma_tick_stays_on_grid(game.after(events.drop_last()), events.last());
    }
}

/// However many ticks a game runs through, obstacles that began on the grid
/// are on the grid.
pub proof fn lemma_obstacles_stay_on_grid(game: GameView, events: Seq<Option<Key>>)
    requires
        game.obstacles_in_bounds(),
    ensures
        game.after(events).obstacles_in_bounds(),
    decreases events.len(),
{
    if events.len() > 0 {
        lemma_obstacles_stay_on_grid(game, events.drop_last());
        lemma_tick_stays_on_grid(game.after(events.drop_last()), events.last());
    }
}

/// One tick never adds a life and takes at most one. It takes one only where
/// the tick goes through and, once the frog has moved and the obstacles have
/// advanced, some obstacle occupies the frog's cell.
pub proof fn lemma_tick_takes_at_most_one_life(game: GameView, event: Option<Key>)
    ensures
        game.frog.lives - 1 <= game.next(event).frog.lives <= game.frog.lives,
        game.next(event).frog.lives != game.frog.lives ==> game.plays(event) && collides(
            steered(game.frog, intent_of(event)),
            advanced(game.obstacles),
        ),
{
}

/// However many ticks a game runs through, the frog never has more lives
/// than it began with.
pub proof fn lemma_lives_only_decrease(game: GameView, events: Seq<Option<Key>>)
    ensures
        game.after(events).frog.lives <= game.frog.lives,
    decreases events.len(),
{
    if events.len() > 0 {
        lemma_lives_only_decrease(game, events.drop_last());
        lemma_tick_takes_at_most_one_life(game.after(events.drop_last()), events.last());
    }
}

/// Of two runs of which one goes on where the other stops, the longer one
/// leaves the frog with no more lives than the shorter one.
pub proof fn lemma_lives_fall_along_a_run(
    game: GameView,
    events: Seq<Option<Key>>,
    more: Seq<Option<Key>>,
)
    ensures
        game.after(events + more).frog.lives <= game.after(events).frog.lives,
    decreases more.len(),
{
    if more.len() == 0 {
        assert(events + more =~= events);
    } else {
        assert((events + more).drop_last() =~= events + more.drop_last());
        assert((events + more).last() == more.last());
        lemma_lives_fall_along_a_run(game, events, more.drop_last());
        lemma_tick_takes_at_most_one_life(game.after(events + more.drop_last()), more.last());
    }
}

/// In a running game the input `q` ends the game, whatever the state: frog
/// and obstacles stay as they are, so that a collision that the tick would
/// have brought costs nothing.
pub proof fn lemma_quit_ends_the_game(game: GameView)
    requires
        game.phase == Phase::Running,
    ensures
        game.next(Some(Key::Char('q'))) == (GameView {
            frog: game.frog,
            obstacles: game.obstacles,
            phase: Phase::Terminated,
        }),
{
}

/// A game ends only when the player quits, and a game that has ended never
/// changes again.
pub proof fn lemma_only_quit_ends_the_game(game: GameView, event: Option<Key>)
    ensures
        game.phase == Phase::Running ==> (game.next(event).phase == Phase::Terminated
            <==> intent_of(event) == Intent::Quit),
        game.phase == Phase::Terminated ==> game.next(event) == game,
{
}

/// After a tick that goes through, every obstacle's column is on the grid,
/// and there are as many obstacles as before, each of the same shape.
pub proof fn lemma_tick_keeps_obstacles(game: GameView, event: Option<Key>)
    requires
        game.plays(event),
    ensures
        game.next(event).obstacles.len() == game.obstacles.len(),
        forall|i: int|
            0 <= i < game.obstacles.len() ==> {
                let before = game.obstacles[i];
                let after = #[trigger] game.next(event).obstacles[i];
                &&& after.x < WIDTH
                &&& after.y == before.y
                &&& after.width == before.width
                &&& after.height == before.height
                &&& after.speed == before.speed
            },
{
}

/// However many ticks a game runs through, it has the obstacles it began
/// with: as many, in the same order, each in its row and with its extent and
/// speed. Only their columns change.
pub proof fn lemma_obstacles_keep_their_shape(game: GameView, events: Seq<Option<Key>>)
    ensures
        game.after(events).obstacles.len() == game.obstacles.len(),
        forall|i: int|
            0 <= i < game.obstacles.len() ==> {
                let before = game.obstacles[i];
                let after = #[trigger] game.after(events).obstacles[i];
                &&& after.y == before.y
                &&& after.width == before.width
                &&& after.height == before.height
                &&& after.speed == before.speed
            },
    decreases events.len(),
{
    if events.len() > 0 {
        lemma_obstacles_keep_their_shape(game, events.drop_last());
    }
}

/// A game that was running has ended after a run of ticks if and only if
/// one of the inputs was the one that quits.
pub proof fn lemma_run_ends_only_on_quit(game: GameView, events: Seq<Option<Key>>)
    requires
        game.phase == Phase::Running,
    ensures
        game.after(events).phase == Phase::Terminated <==> exists|i: int|
            0 <= i < events.len() && intent_of(#[trigger] events[i]) == Intent::Quit,
    decreases events.len(),
{
    if events.len() > 0 {
        let rest = events.drop_last();
        lemma_run_ends_only_on_quit(game, rest);
        if game.after(rest).phase == Phase::Terminated {
            let i = choose|i: int|
                0 <= i < rest.len() && intent_of(#[trigger] rest[i]) == Intent::Quit;
            assert(intent_of(events[i]) == Intent::Quit);
        } else {
            if exists|i: int|
                0 <= i < events.len() && intent_of(#[trigger] events[i]) == Intent::Quit {
                let i = choose|i: int|
                    0 <= i < events.len() && intent_of(#[trigger] events[i]) == Intent::Quit;
                if i < events.len() - 1 {
                    assert(intent_of(rest[i]) == Intent::Quit);
                }
            }
        }
    }
}

} // verus!
