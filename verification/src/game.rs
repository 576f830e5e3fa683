//! The simulation state and its transitions.
//!
//! [`GameModel`] is the mathematical state machine: every transition is a
//! spec function on it. [`GameContext`] is the state as the program holds it;
//! each of its methods is proved to take the transition of the same name.

use crate::dice::sample_draws;
use crate::direction::SnakeDirection;
use crate::food::{food_after, lemma_placed_food_in_grid, place_food, valid_draws};
use crate::grid::{cells, Cell, Point};
use vstd::prelude::*;

verus! {

/// Where the game stands. `GameOver` is final.
#[derive(Copy, Clone, Debug, PartialEq, Eq, Structural)]
pub enum GameState {
    Playing,
    Paused,
    GameOver,
}

/// The simulation state as a mathematical value.
pub struct GameModel {
    /// The snake's cells, head first.
    pub body: Seq<Cell>,
    /// The direction of the last move made.
    pub direction: SnakeDirection,
    /// The direction asked for since; the next tick moves this way.
    pub pending: SnakeDirection,
    pub food: Cell,
    pub state: GameState,
    pub score: int,
}

impl GameModel {
    /// The state every game starts from.
    pub open spec fn initial() -> GameModel {
        GameModel {
            body: seq![Cell { x: 3, y: 1 }, Cell { x: 2, y: 1 }, Cell { x: 1, y: 1 }],
            direction: SnakeDirection::Right,
            pending: SnakeDirection::Right,
            food: Cell { x: 3, y: 3 },
            state: GameState::Paused,
            score: 0,
        }
    }

    /// The snake has a head, snake and food are on the board, and the score
    /// is not negative.
    pub open spec fn valid(self) -> bool {
        &&& self.body.len() > 0
        &&& forall|i: int| 0 <= i < self.body.len() ==> (#[trigger] self.body[i]).in_grid()
        &&& self.food.in_grid()
        &&& self.score >= 0
    }

    pub open spec fn head(self) -> Cell {
        self.body[0]
    }

    /// Where the head would go by the pending direction, before wraparound.
    pub open spec fn candidate_head(self) -> Cell {
        self.head().plus(self.pending.unit())
    }

    /// Whether the next move runs into the snake. This is judged before
    /// wraparound and against the whole body as it lies now, head and tail
    /// included.
    pub open spec fn collides(self) -> bool {
        self.body.contains(self.candidate_head())
    }

    /// Where the head goes by the pending direction, after wraparound.
    pub open spec fn next_head(self) -> Cell {
        self.candidate_head().wrapped()
    }

    /// Whether the next move reaches the food. This is judged after
    /// wraparound.
    pub open spec fn eats(self) -> bool {
        self.next_head() == self.food
    }

    /// Whether the next tick relocates the food: the game is running and the
    /// move reaches the food.
    pub open spec fn feeds(self) -> bool {
        self.state == GameState::Playing && self.eats()
    }

    /// The cells that stay through the next move: all of them if the move
    /// reaches the food, all but the tail otherwise.
    pub open spec fn kept_body(self) -> Seq<Cell> {
        if self.eats() {
            self.body
        } else {
            self.body.drop_last()
        }
    }

    /// The body after the next move: the new head in front of the cells that
    /// stay.
    pub open spec fn moved_body(self) -> Seq<Cell> {
        seq![self.next_head()] + self.kept_body()
    }

    /// Whether the next move takes the head across an edge of the board and
    /// onto a cell of the snake that stays. The collision check is made
    /// before wraparound and does not see this.
    pub open spec fn wraps_onto_body(self) -> bool {
        self.next_head() != self.candidate_head() && self.kept_body().contains(self.next_head())
    }

    /// One tick, with `new_food` as the position the food moves to if it is
    /// eaten. Unless the game is running nothing changes. A collision ends
    /// the game, and the move is still made in that same tick.
    pub open spec fn tick(self, new_food: Cell) -> GameModel {
        if self.state != GameState::Playing {
            self
        } else {
            GameModel {
                body: self.moved_body(),
                direction: self.pending,
                pending: self.pending,
                food: if self.eats() {
                    new_food
                } else {
                    self.food
                },
                state: if self.collides() {
                    GameState::GameOver
                } else {
                    GameState::Playing
                },
                score: if self.eats() {
                    self.score + 1
                } else {
                    self.score
                },
            }
        }
    }

    /// One tick, with the food placed from the candidates `draws` against the
    /// body as it lies before the move.
    pub open spec fn tick_with(self, draws: Seq<Cell>) -> GameModel {
        self.tick(food_after(self.body, draws))
    }

    /// A run of ticks, one for each entry of `foods`, which gives the
    /// position the food moves to if that tick eats it.
    pub open spec fn run(self, foods: Seq<Cell>) -> GameModel
        decreases foods.len(),
    {
        if foods.len() == 0 {
            self
        } else {
            self.run(foods.drop_last()).tick(foods.last())
        }
    }

    /// A request to turn towards `wanted`. It is dropped if `wanted` is the
    /// reverse of the direction last moved in, whatever is pending.
    pub open spec fn steer(self, wanted: SnakeDirection) -> GameModel {
        if wanted == self.direction.reversed() {
            self
        } else {
            GameModel { pending: wanted, ..self }
        }
    }

    /// Pauses a running game and resumes a paused one.
    pub open spec fn toggle_pause(self) -> GameModel {
        GameModel {
            state: match self.state {
                GameState::Playing => GameState::Paused,
                GameState::Paused => GameState::Playing,
                GameState::GameOver => GameState::GameOver,
            },
            ..self
        }
    }
}

/// The simulation state.
#[derive(Debug, PartialEq, Eq)]
pub struct GameContext {
    /// The snake's cells, head first.
    pub snake_parts: Vec<Point>,
    /// The direction of the last move made.
    pub game_direction: SnakeDirection,
    /// The direction asked for since; the next tick moves this way.
    pub next_direction: SnakeDirection,
    pub food: Point,
    pub game_state: GameState,
    pub score: i32,
}

impl View for GameContext {
    type V = GameModel;

    open spec fn view(&self) -> GameModel {
        GameModel {
            body: cells(self.snake_parts@),
            direction: self.game_direction,
            pending: self.next_direction,
            food: self.food@,
            state: self.game_state,
            score: self.score as int,
        }
    }
}

/// Whether `target` is one of the cells of `body`.
fn occupies(body: &Vec<Point>, target: Point) -> (hit: bool)
    ensures
        hit == cells(body@).contains(target@),
{
    let mut i: usize = 0;
    while i < body.len()
        invariant
            i <= body.len(),
            forall|j: int| 0 <= j < i ==> cells(body@)[j] != target@,
        decreases body.len() - i,
    {
        if body[i].0 == target.0 && body[i].1 == target.1 {
            assert(cells(body@)[i as int] == target@);
            return true;
        }
        i += 1;
    }
    false
}

impl GameContext {
    /// A new game: paused, three cells long, heading right.
    pub fn new() -> (game: GameContext)
        ensures
            game@ == GameModel::initial(),
            game@.valid(),
    {
        let mut snake_parts: Vec<Point> = Vec::new();
        snake_parts.push(Point(3, 1));
        snake_parts.push(Point(2, 1));
        snake_parts.push(Point(1, 1));
        let game = GameContext {
            snake_parts,
            game_direction: SnakeDirection::Right,
            next_direction: SnakeDirection::Right,
            game_state: GameState::Paused,
            food: Point(3, 3),
            score: 0,
        };
        assert(game@.body =~= GameModel::initial().body);
        game
    }

    /// Whether the state is valid. Every state reached from [`Self::new`]
    /// through the methods of this type is.
    pub fn is_valid(&self) -> (ok: bool)
        ensures
            ok == self@.valid(),
    {
        if self.snake_parts.len() == 0 || !self.food.in_grid() || self.score < 0 {
            return false;
        }
        let mut i: usize = 0;
        while i < self.snake_parts.len()
            invariant
                i <= self.snake_parts.len(),
                forall|j: int| 0 <= j < i ==> (#[trigger] self@.body[j]).in_grid(),
            decreases self.snake_parts.len() - i,
        {
            if !self.snake_parts[i].in_grid() {
                assert(!self@.body[i as int].in_grid());
                return false;
            }
            i += 1;
        }
        true
    }

    /// Where the head would go by the pending direction, before wraparound.
    fn candidate_head(&self) -> (candidate: Point)
        requires
            self@.valid(),
        ensures
            candidate@ == self@.candidate_head(),
    {
        assert(self@.body[0].in_grid());
        self.snake_parts[0] + self.next_direction.unit_vector()
    }

    /// Whether the next tick will relocate the food.
    pub fn feeds(&self) -> (hungry: bool)
        requires
            self@.valid(),
        ensures
            hungry == self@.feeds(),
    {
        match self.game_state {
            GameState::Playing => self.candidate_head().wrapped() == self.food,
            _ => false,
        }
    }

    /// Advances the game by one tick. If the food is eaten, its new position
    /// is worked out from the candidates `draws`; otherwise they are not
    /// looked at.
    pub fn next_tick_with(&mut self, draws: &Vec<Point>)
        requires
            old(self)@.valid(),
            old(self)@.feeds() ==> old(self).score < i32::MAX && valid_draws(
                cells(draws@),
                old(self)@.body.len(),
            ),
        ensures
            final(self)@ == old(self)@.tick_with(cells(draws@)),
            final(self)@.valid(),
    {
        match self.game_state {
            GameState::Paused => return,
            GameState::GameOver => return,
            GameState::Playing => (),
        }
        let ghost before = self@;
        let candidate = self.candidate_head();
        self.game_direction = self.next_direction;

        if occupies(&self.snake_parts, candidate) {
            self.game_state = GameState::GameOver;
        }
        let next_head = candidate.wrapped();

        if next_head == self.food {
            self.food = place_food(&self.snake_parts, draws);
            self.score += 1;
            self.snake_parts.insert(0, next_head);
            proof {
                lemma_placed_food_in_grid(before.body, cells(draws@));
                assert(self@.body =~= before.moved_body());
            }
        } else {
            self.snake_parts.pop();
            self.snake_parts.insert(0, next_head);
            proof {
                assert(self@.body =~= before.moved_body());
            }
        }
    }

    /// Advances the game by one tick. If the food is eaten, its new position
    /// is drawn at random; it may be any cell of the board.
    pub fn next_tick(&mut self)
        requires
            old(self)@.valid(),
            old(self)@.feeds() ==> old(self).score < i32::MAX,
        ensures
            final(self)@ == old(self)@.tick(final(self)@.food),
            final(self)@.valid(),
            exists|draws: Seq<Cell>|
                #![trigger old(self)@.tick_with(draws)]
                valid_draws(draws, old(self)@.body.len()) && final(self)@ == old(self)@.tick_with(
                    draws,
                ),
    {
        if self.feeds() {
            let draws = sample_draws(self.snake_parts.len());
            self.next_tick_with(&draws);
        } else {
            let ghost unused = Seq::new(self@.body.len() + 1, |i: int| self@.food);
            self.next_tick_with(&Vec::new());
            assert(valid_draws(unused, old(self)@.body.len()));
            assert(self@ == old(self)@.tick_with(unused));
        }
    }

    /// Asks for a turn towards `wanted`. The request is dropped if `wanted`
    /// is the reverse of the direction last moved in.
    pub fn steer(&mut self, wanted: SnakeDirection)
        ensures
            final(self)@ == old(self)@.steer(wanted),
    {
        if self.game_direction != wanted.opposite() {
            self.next_direction = wanted;
        }
    }

    /// Asks for a turn upwards.
    pub fn move_up(&mut self)
        ensures
            final(self)@ == old(self)@.steer(SnakeDirection::Up),
    {
        self.steer(SnakeDirection::Up);
    }

    /// Asks for a turn downwards.
    pub fn move_down(&mut self)
        ensures
            final(self)@ == old(self)@.steer(SnakeDirection::Down),
    {
        self.steer(SnakeDirection::Down);
    }

    /// Asks for a turn to the right.
    pub fn move_right(&mut self)
        ensures
            final(self)@ == old(self)@.steer(SnakeDirection::Right),
    {
        self.steer(SnakeDirection::Right);
    }

    /// Asks for a turn to the left.
    pub fn move_left(&mut self)
        ensures
            final(self)@ == old(self)@.steer(SnakeDirection::Left),
    {
        self.steer(SnakeDirection::Left);
    }

    /// Pauses a running game and resumes a paused one. A game that is over
    /// stays over.
    pub fn toggle_pause(&mut self)
        ensures
            final(self)@ == old(self)@.toggle_pause(),
    {
        self.game_state =
        match self.game_state {
            GameState::Playing => GameState::Paused,
            GameState::Paused => GameState::Playing,
            GameState::GameOver => GameState::GameOver,
        };
    }
}

} // verus!
