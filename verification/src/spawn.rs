//! The obstacles a new game begins with, placed by chance.

use rand::rngs::ThreadRng;
use rand::Rng;
use vstd::prelude::*;

use crate::grid::{HEIGHT, NUM_OBSTACLES, WIDTH};
use crate::obstacle::Obstacle;

verus! {

/// `rand::rngs::ThreadRng`, the handle to the random number generator of the
/// current thread. Nothing inside it is visible to the proofs.
#[verifier::external_type_specification]
#[verifier::external_body]
pub struct ExThreadRng(rand::rngs::ThreadRng);

/// Calls `rand::thread_rng`, which hands out the generator of the current
/// thread. Nothing is claimed of the handle. The call panics where the
/// operating system gives the generator no seed; no argument decides that.
#[verifier::external_body]
fn thread_rng() -> ThreadRng {
    rand::thread_rng()
}

/// Calls `rand::Rng::gen_range` on the half-open range `low..high` of `u16`.
/// The call panics on an empty range, which `requires` leaves out. Which
/// number comes back is up to chance; the contract claims only that it lies
/// in the range, the lower bound included and the upper one not.
#[verifier::external_body]
fn gen_range_u16(rng: &mut ThreadRng, low: u16, high: u16) -> (n: u16)
    requires
        low < high,
    ensures
        low <= n < high,
{
    rng.gen_range(low..high)
}

/// Calls `rand::Rng::gen_range` on the closed range `low..=high` of `i16`.
/// The call panics on an empty range, which `requires` leaves out. Which
/// number comes back is up to chance; the contract claims only that it lies
/// in the range, both bounds included.
#[verifier::external_body]
fn gen_range_inclusive_i16(rng: &mut ThreadRng, low: i16, high: i16) -> (n: i16)
    requires
        low <= high,
    ensures
        low <= n <= high,
{
    rng.gen_range(low..=high)
}

/// The obstacles of a new game: [`NUM_OBSTACLES`] of them, each placed by
/// chance in a row other than the top and the bottom one, one to three cells
/// wide, one cell high, and moving at most two columns a tick in either
/// direction. Two calls need not give the same obstacles.
pub fn generate_obstacles() -> (obstacles: Vec<Obstacle>)
    ensures
        obstacles@.len() == NUM_OBSTACLES,
        forall|i: int| 0 <= i < obstacles@.len() ==> (#[trigger] obstacles@[i]).spawnable(),
{
    let mut obstacles: Vec<Obstacle> = Vec::new();
    let mut rng = thread_rng();
    let mut made: usize = 0;
    while made < NUM_OBSTACLES
        invariant
            made <= NUM_OBSTACLES,
            obstacles@.len() == made,
            forall|i: int| 0 <= i < obstacles@.len() ==> (#[trigger] obstacles@[i]).spawnable(),
        decreases NUM_OBSTACLES - made,
    {
        let x: u16 = gen_range_u16(&mut rng, 0, WIDTH);
        let y: u16 = gen_range_u16(&mut rng, 1, HEIGHT - 1);
        let width: u16 = gen_range_u16(&mut rng, 1, 4);
        let height: u16 = 1;
        let speed: i16 = gen_range_inclusive_i16(&mut rng, -2, 2);
        obstacles.push(Obstacle::new(x, y, width, height, speed));
        made += 1;
    }
    obstacles
}

} // verus!
