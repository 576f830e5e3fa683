//! What holds of the simulation over all states and moves.
//!
//! Each law is stated on [`GameModel`], the state machine that the methods of
//! [`GameContext`](crate::game::GameContext) are proved to follow.

use crate::direction::SnakeDirection;
use crate::game::{GameModel, GameState};
use crate::grid::{Cell, GRID_X_SIZE, GRID_Y_SIZE};
use vstd::prelude::*;

verus! {

/// A new game is valid, its snake lies on three different cells, and what is
/// pending is no reversal.
pub proof fn lemma_initial_state()
    ensures
        GameModel::initial().valid(),
        GameModel::initial().body.no_duplicates(),
        GameModel::initial().pending != GameModel::initial().direction.reversed(),
{
}

/// Turn requests and pausing touch neither snake nor food nor score, and
/// keep a valid state valid.
pub proof fn lemma_requests_keep_board(m: GameModel, wanted: SnakeDirection)
    ensures
        m.steer(wanted).body == m.body,
        m.steer(wanted).food == m.food,
        m.steer(wanted).score == m.score,
        m.steer(wanted).state == m.state,
        m.steer(wanted).direction == m.direction,
        m.toggle_pause().body == m.body,
        m.toggle_pause().food == m.food,
        m.toggle_pause().score == m.score,
        m.toggle_pause().direction == m.direction,
        m.toggle_pause().pending == m.pending,
        m.valid() ==> m.steer(wanted).valid() && m.toggle_pause().valid(),
{
}

/// A tick keeps the snake's cells distinct as long as the game goes on,
/// unless the head is carried across an edge onto the snake.
pub proof fn lemma_tick_keeps_body_distinct(pre: GameModel, new_food: Cell)
    requires
        pre.valid(),
        pre.body.no_duplicates(),
        !pre.wraps_onto_body(),
    ensures
        pre.tick(new_food).state != GameState::GameOver ==> pre.tick(new_food).body.no_duplicates(),
{
    let post = pre.tick(new_food);
    if pre.state == GameState::Playing && post.state != GameState::GameOver {
        let head = pre.next_head();
        let kept = pre.kept_body();
        assert(!pre.body.contains(pre.candidate_head()));
        assert forall|i: int| 0 <= i < kept.len() implies kept[i] != head by {
            assert(kept[i] == pre.body[i]);
            if head == pre.candidate_head() {
                assert(pre.body.contains(pre.body[i]));
            } else {
                assert(kept.contains(kept[i]));
            }
        }
        assert forall|i: int, j: int| 0 <= i < post.body.len() && 0 <= j < post.body.len() && i
            != j implies post.body[i] != post.body[j] by {
            if i > 0 && j > 0 {
                assert(post.body[i] == pre.body[i - 1]);
                assert(post.body[j] == pre.body[j - 1]);
            }
        }
    }
}

/// Where the head is carried across an edge onto the snake, the tick leaves
/// the snake with one cell held twice, and does not end the game for it.
pub proof fn lemma_wrap_onto_body_goes_unseen(pre: GameModel, new_food: Cell)
    requires
        pre.state == GameState::Playing,
        pre.valid(),
        pre.wraps_onto_body(),
    ensures
        !pre.tick(new_food).body.no_duplicates(),
        !pre.collides(),
        pre.tick(new_food).state == GameState::Playing,
{
    let post = pre.tick(new_food);
    let kept = pre.kept_body();
    let k = choose|k: int| 0 <= k < kept.len() && kept[k] == pre.next_head();
    assert(post.body[0] == post.body[k + 1]);
    assert(!pre.candidate_head().in_grid());
    assert forall|i: int| 0 <= i < pre.body.len() implies pre.body[i] != pre.candidate_head() by {
        assert(pre.body[i].in_grid());
    }
}

/// A tick keeps a valid state valid: snake and food stay on the board.
pub proof fn lemma_tick_stays_on_board(pre: GameModel, new_food: Cell)
    requires
        pre.valid(),
        new_food.in_grid(),
    ensures
        pre.tick(new_food).valid(),
{
    let post = pre.tick(new_food);
    if pre.state == GameState::Playing {
        assert(pre.body[0].in_grid());
        assert forall|i: int| 0 <= i < post.body.len() implies (#[trigger] post.body[i]).in_grid() by {
            if i > 0 {
                assert(post.body[i] == pre.body[i - 1]);
            }
        }
    }
}

/// However many ticks are run, a valid state stays valid as long as every
/// position offered for the food is on the board.
pub proof fn lemma_run_stays_on_board(m: GameModel, foods: Seq<Cell>)
    requires
        m.valid(),
        forall|i: int| 0 <= i < foods.len() ==> (#[trigger] foods[i]).in_grid(),
    ensures
        m.run(foods).valid(),
    decreases foods.len(),
{
    if foods.len() > 0 {
        lemma_run_stays_on_board(m, foods.drop_last());
        lemma_tick_stays_on_board(m.run(foods.drop_last()), foods.last());
    }
}

/// Pausing twice changes nothing, from any state.
pub proof fn lemma_toggle_pause_twice(m: GameModel)
    ensures
        m.toggle_pause().toggle_pause() == m,
        m.state == GameState::Playing ==> m.toggle_pause().state == GameState::Paused,
        m.state == GameState::Paused ==> m.toggle_pause().state == GameState::Playing,
{
}

/// A request for the reverse of the direction last moved in changes nothing;
/// any other request becomes the pending direction.
pub proof fn lemma_reversal_rejected(m: GameModel, wanted: SnakeDirection)
    ensures
        wanted == m.direction.reversed() ==> m.steer(wanted) == m,
        wanted != m.direction.reversed() ==> m.steer(wanted).pending == wanted,
{
}

/// No tick turns the snake right round: as long as the pending direction is
/// no reversal, requests keep it so, and a tick moves in a direction that is
/// not the reverse of the one before.
pub proof fn lemma_never_reverses(m: GameModel, wanted: SnakeDirection, new_food: Cell)
    requires
        m.pending != m.direction.reversed(),
    ensures
        m.steer(wanted).pending != m.steer(wanted).direction.reversed(),
        m.toggle_pause().pending != m.toggle_pause().direction.reversed(),
        m.tick(new_food).pending != m.tick(new_food).direction.reversed(),
        m.tick(new_food).direction != m.direction.reversed(),
{
}

/// A tick of a running game that eats makes the snake one cell longer and
/// the score one higher; one that does not eat leaves length, score, and food
/// as they are.
pub proof fn lemma_growth(pre: GameModel, new_food: Cell)
    requires
        pre.state == GameState::Playing,
        pre.body.len() > 0,
    ensures
        pre.eats() ==> pre.tick(new_food).body.len() == pre.body.len() + 1 && pre.tick(
            new_food,
        ).score == pre.score + 1 && pre.tick(new_food).food == new_food,
        !pre.eats() ==> pre.tick(new_food).body.len() == pre.body.len() && pre.tick(
            new_food,
        ).score == pre.score && pre.tick(new_food).food == pre.food,
{
}

/// Over any run of ticks the snake grows by as many cells as the score rises,
/// and neither ever falls.
pub proof fn lemma_score_counts_growth(m: GameModel, foods: Seq<Cell>)
    requires
        m.body.len() > 0,
    ensures
        m.run(foods).body.len() - m.body.len() == m.run(foods).score - m.score,
        m.run(foods).score >= m.score,
    decreases foods.len(),
{
    if foods.len() > 0 {
        let before = m.run(foods.drop_last());
        lemma_score_counts_growth(m, foods.drop_last());
        if before.state == GameState::Playing {
            lemma_growth(before, foods.last());
        }
    }
}

/// A head on the edge of the board that moves off it comes back in on the
/// opposite edge, in the same row or column.
pub proof fn lemma_wraparound(pre: GameModel, new_food: Cell)
    requires
        pre.state == GameState::Playing,
        pre.valid(),
    ensures
        pre.tick(new_food).body[0] == pre.next_head(),
        pre.pending == SnakeDirection::Right && pre.head().x == GRID_X_SIZE - 1 ==> pre.next_head()
            == (Cell { x: 0, y: pre.head().y }),
        pre.pending == SnakeDirection::Left && pre.head().x == 0 ==> pre.next_head() == (Cell {
            x: GRID_X_SIZE - 1,
            y: pre.head().y,
        }),
        pre.pending == SnakeDirection::Down && pre.head().y == GRID_Y_SIZE - 1 ==> pre.next_head()
            == (Cell { x: pre.head().x, y: 0 }),
        pre.pending == SnakeDirection::Up && pre.head().y == 0 ==> pre.next_head() == (Cell {
            x: pre.head().x,
            y: GRID_Y_SIZE - 1,
        }),
{
    assert(pre.body[0].in_grid());
}

/// Once the game is over, no run of ticks changes anything, and neither a
/// turn request nor pausing brings the game back.
pub proof fn lemma_game_over_is_final(m: GameModel, foods: Seq<Cell>, wanted: SnakeDirection)
    requires
        m.state == GameState::GameOver,
    ensures
        m.run(foods) == m,
        m.toggle_pause() == m,
        m.steer(wanted).state == GameState::GameOver,
    decreases foods.len(),
{
    if foods.len() > 0 {
        lemma_game_over_is_final(m, foods.drop_last(), wanted);
    }
}

} // verus!
