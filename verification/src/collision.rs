//! Collisions between the frog and the obstacles, and what they cost.

use vstd::prelude::*;

use crate::frog::Frog;
use crate::grid::{RESPAWN_X, RESPAWN_Y};
use crate::obstacle::Obstacle;

verus! {

/// Some obstacle occupies the frog's cell.
pub open spec fn collides(frog: Frog, obstacles: Seq<Obstacle>) -> bool {
    exists|i: int|
        0 <= i < obstacles.len() && #[trigger] obstacles[i].covers(frog.x as int, frog.y as int)
}

/// How many of the obstacles occupy the frog's cell.
pub open spec fn overlap_count(frog: Frog, obstacles: Seq<Obstacle>) -> nat
    decreases obstacles.len(),
{
    if obstacles.len() == 0 {
        0
    } else {
        let rest = overlap_count(frog, obstacles.drop_last());
        if obstacles.last().covers(frog.x as int, frog.y as int) {
            rest + 1
        } else {
            rest
        }
    }
}

/// The frog after a collision: back at the respawn cell with one life
/// fewer. A frog without lives has none to lose and keeps its count of zero.
pub open spec fn respawned(frog: Frog) -> Frog {
    Frog {
        x: RESPAWN_X,
        y: RESPAWN_Y,
        lives: if frog.lives > 0 { (frog.lives - 1) as u8 } else { 0 },
    }
}

/// The frog after the collision check of one tick.
pub open spec fn after_collision(frog: Frog, obstacles: Seq<Obstacle>) -> Frog {
    if collides(frog, obstacles) {
        respawned(frog)
    } else {
        frog
    }
}

/// Whether some obstacle occupies the frog's cell.
pub fn check_collision(frog: &Frog, obstacles: &[Obstacle]) -> (hit: bool)
    ensures
        hit == collides(*frog, obstacles@),
{
    let mut i: usize = 0;
    while i < obstacles.len()
        invariant
            i <= obstacles.len(),
            forall|j: int|
                0 <= j < i ==> !(#[trigger] obstacles@[j]).covers(frog.x as int, frog.y as int),
        decreases obstacles.len() - i,
    {
        if obstacles[i].overlaps(frog.x, frog.y) {
            return true;
        }
        i += 1;
    }
    false
}

/// The collision check of one tick. Where some obstacle occupies the frog's
/// cell the frog loses one life and goes back to the respawn cell, once,
/// however many obstacles are there; otherwise nothing changes. The count of
/// lives stops at zero.
pub fn handle_collision(frog: &mut Frog, obstacles: &[Obstacle])
    ensures
        *final(frog) == after_collision(*old(frog), obstacles@),
        final(frog).lives <= old(frog).lives,
        final(frog).lives != old(frog).lives ==> collides(*old(frog), obstacles@),
        old(frog).in_bounds() ==> final(frog).in_bounds(),
{
    if check_collision(frog, obstacles) {
        if frog.lives > 0 {
            frog.lives -= 1;
        }
        frog.x = RESPAWN_X;
        frog.y = RESPAWN_Y;
    }
}

/// A collision costs one life and one return to the respawn cell, whether one
/// obstacle occupies the frog's cell or several do; the count of lives stops
/// at zero.
pub proof fn lemma_collision_costs_one_life(frog: Frog, obstacles: Seq<Obstacle>)
    ensures
        collides(frog, obstacles) <==> overlap_count(frog, obstacles) >= 1,
        overlap_count(frog, obstacles) >= 1 && frog.lives > 0 ==> after_collision(
            frog,
            obstacles,
        ).lives == frog.lives - 1,
        overlap_count(frog, obstacles) >= 1 ==> after_collision(frog, obstacles).x == RESPAWN_X
            && after_collision(frog, obstacles).y == RESPAWN_Y,
        overlap_count(frog, obstacles) == 0 ==> after_collision(frog, obstacles) == frog,
    decreases obstacles.len(),
{
    if obstacles.len() > 0 {
        let rest = obstacles.drop_last();
        lemma_collision_costs_one_life(frog, rest);
        if collides(frog, obstacles) {
            let i = choose|i: int|
                0 <= i < obstacles.len() && #[trigger] obstacles[i].covers(
                    frog.x as int,
                    frog.y as int,
                );
            if i < obstacles.len() - 1 {
                assert(rest[i].covers(frog.x as int, frog.y as int));
            }
        }
    }
}

/// The collision check never adds a life, and it takes one only where some
/// obstacle occupies the frog's cell.
pub proof fn lemma_lives_never_increase(frog: Frog, obstacles: Seq<Obstacle>)
    ensures
        after_collision(frog, obstacles).lives <= frog.lives,
        after_collision(frog, obstacles).lives != frog.lives ==> collides(frog, obstacles),
{
}

} // verus!
