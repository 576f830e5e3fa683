//! The random source behind food placement.
//!
//! Randomness comes from the `rand` crate's thread-local generator. Nothing
//! is known of a drawn number but its range, so everything here promises
//! bounds only; what is done with the numbers is decided elsewhere, by code
//! that takes them as plain arguments.

use crate::food::valid_draws;
use crate::grid::{cells, Point, GRID_X_SIZE, GRID_Y_SIZE};
use rand::rngs::ThreadRng;
use rand::Rng;
use vstd::prelude::*;

verus! {

/// `rand::rngs::ThreadRng`, a handle to the calling thread's generator. Its
/// inside is of no concern here: the handle is only passed on.
#[verifier::external_type_specification]
#[verifier::external_body]
pub struct ExThreadRng(rand::rngs::ThreadRng);

/// `rand::thread_rng` hands out the handle. Nothing is claimed of it. It
/// panics if the system cannot seed the generator on a thread's first call;
/// no contract can rule that out.
pub assume_specification[ rand::thread_rng ]() -> (rng: ThreadRng);

/// `Rng::gen_range` on the half-open range `0..sides`: the number drawn lies
/// in that range. The call panics on an empty range, hence `sides > 0`.
#[verifier::external_body]
fn roll(rng: &mut ThreadRng, sides: u32) -> (face: u32)
    requires
        sides > 0,
    ensures
        face < sides,
{
    rng.gen_range(0..sides)
}

/// Draws one position on the board: the column first, then the row.
fn random_point(rng: &mut ThreadRng) -> (point: Point)
    ensures
        point@.in_grid(),
{
    let x = roll(rng, GRID_X_SIZE);
    let y = roll(rng, GRID_Y_SIZE);
    Point::at(x, y)
}

/// Draws the candidates that food placement needs for a body of `body_len`
/// cells: one to start from and one per body cell.
pub fn sample_draws(body_len: usize) -> (draws: Vec<Point>)
    ensures
        valid_draws(cells(draws@), body_len as nat),
{
    let mut rng = rand::thread_rng();
    let mut draws: Vec<Point> = Vec::new();
    draws.push(random_point(&mut rng));
    let mut drawn: usize = 0;
    while drawn < body_len
        invariant
            drawn <= body_len,
            draws.len() == drawn + 1,
            forall|i: int| 0 <= i < draws.len() ==> (#[trigger] draws@[i])@.in_grid(),
        decreases body_len - drawn,
    {
        draws.push(random_point(&mut rng));
        drawn += 1;
    }
    draws
}

} // verus!
