//! Food placement: an approximate rejection scheme over a list of candidate
//! positions.
//!
//! The first candidate is the starting position. Then the body is walked head
//! first, and each body cell has one fresh candidate of its own: where the
//! food shares a column with the cell, it takes the candidate's column; where
//! it shares a row, it takes the candidate's row. A coordinate is replaced at
//! most once per body cell, so the result may still lie on the body.

use crate::grid::{cells, Cell, Point};
use vstd::prelude::*;

verus! {

/// One step of the scheme: each coordinate of `food` that coincides with the
/// same coordinate of `occupied` is replaced by that coordinate of `fresh`.
pub open spec fn settle(food: Cell, occupied: Cell, fresh: Cell) -> Cell {
    Cell {
        x: if food.x == occupied.x {
            fresh.x
        } else {
            food.x
        },
        y: if food.y == occupied.y {
            fresh.y
        } else {
            food.y
        },
    }
}

/// Where the food ends up for a given body and given candidates:
/// `draws[0]` is the starting position and `draws[i + 1]` the candidate that
/// belongs to `body[i]`.
pub open spec fn food_after(body: Seq<Cell>, draws: Seq<Cell>) -> Cell
    decreases body.len(),
{
    if body.len() == 0 {
        draws[0]
    } else {
        settle(food_after(body.drop_last(), draws), body.last(), draws[body.len() as int])
    }
}

/// Candidates fit a body of `body_len` cells when there is one per body cell
/// and one more to start from, all of them on the board.
pub open spec fn valid_draws(draws: Seq<Cell>, body_len: nat) -> bool {
    &&& draws.len() == body_len + 1
    &&& forall|i: int| 0 <= i < draws.len() ==> (#[trigger] draws[i]).in_grid()
}

/// Runs the placement scheme on `body` with the candidates `draws`.
pub fn place_food(body: &Vec<Point>, draws: &Vec<Point>) -> (food: Point)
    requires
        draws.len() == body.len() + 1,
    ensures
        food@ == food_after(cells(body@), cells(draws@)),
{
    let mut food = draws[0];
    let mut i: usize = 0;
    while i < body.len()
        invariant
            i <= body.len(),
            draws.len() == body.len() + 1,
            food@ == food_after(cells(body@).take(i as int), cells(draws@)),
        decreases body.len() - i,
    {
        let occupied = body[i];
        let fresh = draws[i + 1];
        if food.0 == occupied.0 {
            food.0 = fresh.0;
        }
        if food.1 == occupied.1 {
            food.1 = fresh.1;
        }
        proof {
            let upto = cells(body@).take(i + 1);
            assert(upto.drop_last() =~= cells(body@).take(i as int));
        }
        i += 1;
    }
    proof {
        assert(cells(body@).take(body.len() as int) =~= cells(body@));
    }
    food
}

/// Candidates taken from the board leave the food on the board.
pub proof fn lemma_placed_food_in_grid(body: Seq<Cell>, draws: Seq<Cell>)
    requires
        valid_draws(draws, body.len()),
    ensures
        food_after(body, draws).in_grid(),
{
    lemma_prefix_in_grid(body, draws);
}

proof fn lemma_prefix_in_grid(body: Seq<Cell>, draws: Seq<Cell>)
    requires
        draws.len() > body.len(),
        forall|i: int| 0 <= i < draws.len() ==> (#[trigger] draws[i]).in_grid(),
    ensures
        food_after(body, draws).in_grid(),
    decreases body.len(),
{
    if body.len() > 0 {
        lemma_prefix_in_grid(body.drop_last(), draws);
    }
}

/// The scheme does not keep the food off the body: whatever the body, every
/// cell of the board is the outcome for some valid candidates, namely those
/// that all equal that cell.
pub proof fn lemma_every_cell_can_be_placed(body: Seq<Cell>, target: Cell)
    requires
        target.in_grid(),
    ensures
        valid_draws(Seq::new(body.len() + 1, |i: int| target), body.len()),
        food_after(body, Seq::new(body.len() + 1, |i: int| target)) == target,
{
    lemma_constant_draws(body, Seq::new(body.len() + 1, |i: int| target), target);
}

proof fn lemma_constant_draws(body: Seq<Cell>, draws: Seq<Cell>, target: Cell)
    requires
        draws.len() > body.len(),
        forall|i: int| 0 <= i < draws.len() ==> #[trigger] draws[i] == target,
    ensures
        food_after(body, draws) == target,
    decreases body.len(),
{
    if body.len() > 0 {
        lemma_constant_draws(body.drop_last(), draws, target);
    }
}

} // verus!
