//! What a frame shows: the window's size, the colours, and one square per
//! board cell that is drawn.

use crate::game::{GameContext, GameModel, GameState};
use crate::grid::{Cell, Point, CELL_SIZE, GRID_X_SIZE, GRID_Y_SIZE};
use vstd::prelude::*;

verus! {

/// A colour by its red, green, and blue parts.
#[derive(Copy, Clone, Debug, PartialEq, Eq, Structural)]
pub struct Rgb(pub u8, pub u8, pub u8);

/// A filled square on screen, in pixels from the window's top left corner.
#[derive(Copy, Clone, Debug, PartialEq, Eq, Structural)]
pub struct Dot {
    pub x: i32,
    pub y: i32,
    pub width: u32,
    pub height: u32,
    pub color: Rgb,
}

/// One frame: the background, then the squares in the order they are drawn.
#[derive(Debug, PartialEq, Eq)]
pub struct Scene {
    pub background: Rgb,
    pub dots: Vec<Dot>,
}

/// The background tells the state of the game.
pub open spec fn backdrop(state: GameState) -> Rgb {
    match state {
        GameState::Playing => Rgb(0, 0, 0),
        GameState::Paused => Rgb(30, 30, 30),
        GameState::GameOver => Rgb(60, 0, 0),
    }
}

/// The snake's cells alternate between two shades, the head in the lighter.
pub open spec fn shade(index: int) -> Rgb {
    if index % 2 == 0 {
        Rgb(245, 110, 0)
    } else {
        Rgb(202, 91, 0)
    }
}

pub open spec fn food_shade() -> Rgb {
    Rgb(252, 186, 3)
}

/// Whether `dot` is the square of board cell `cell`, filled with `color`.
pub open spec fn covers(dot: Dot, cell: Cell, color: Rgb) -> bool {
    &&& dot.x == cell.x * CELL_SIZE
    &&& dot.y == cell.y * CELL_SIZE
    &&& dot.width == CELL_SIZE
    &&& dot.height == CELL_SIZE
    &&& dot.color == color
}

/// Whether `scene` shows the state `m`: the food's square first, then the
/// snake's, head first.
pub open spec fn shows(scene: Scene, m: GameModel) -> bool {
    &&& scene.background == backdrop(m.state)
    &&& scene.dots@.len() == m.body.len() + 1
    &&& covers(scene.dots@[0], m.food, food_shade())
    &&& forall|i: int|
        0 <= i < m.body.len() ==> covers(#[trigger] scene.dots@[i + 1], m.body[i], shade(i))
}

/// Width and height of the window, in pixels.
pub fn window_size() -> (size: (u32, u32))
    ensures
        size.0 == GRID_X_SIZE * CELL_SIZE,
        size.1 == GRID_Y_SIZE * CELL_SIZE,
{
    (GRID_X_SIZE * CELL_SIZE, GRID_Y_SIZE * CELL_SIZE)
}

/// The background colour for a state of the game.
pub fn background_color(state: GameState) -> (color: Rgb)
    ensures
        color == backdrop(state),
{
    match state {
        GameState::Playing => Rgb(0, 0, 0),
        GameState::Paused => Rgb(30, 30, 30),
        GameState::GameOver => Rgb(60, 0, 0),
    }
}

/// The colour of the snake's cell number `index`, counted from the head.
pub fn segment_color(index: usize) -> (color: Rgb)
    ensures
        color == shade(index as int),
{
    if index % 2 == 0 {
        Rgb(245, 110, 0)
    } else {
        Rgb(202, 91, 0)
    }
}

/// The colour of the food.
pub fn food_color() -> (color: Rgb)
    ensures
        color == food_shade(),
{
    Rgb(252, 186, 3)
}

/// The square of the board cell at `point`.
pub fn dot_at(point: Point, color: Rgb) -> (dot: Dot)
    requires
        i32::MIN <= point.0 * CELL_SIZE <= i32::MAX,
        i32::MIN <= point.1 * CELL_SIZE <= i32::MAX,
    ensures
        covers(dot, point@, color),
{
    Dot {
        x: point.0 * CELL_SIZE as i32,
        y: point.1 * CELL_SIZE as i32,
        width: CELL_SIZE,
        height: CELL_SIZE,
        color,
    }
}

/// The frame that shows `context`.
pub fn scene(context: &GameContext) -> (frame: Scene)
    requires
        context@.valid(),
    ensures
        shows(frame, context@),
{
    let mut dots: Vec<Dot> = Vec::new();
    dots.push(dot_at(context.food, food_color()));
    let mut i: usize = 0;
    while i < context.snake_parts.len()
        invariant
            i <= context.snake_parts.len(),
            context@.valid(),
            dots@.len() == i + 1,
            covers(dots@[0], context@.food, food_shade()),
            forall|j: int| 0 <= j < i ==> covers(#[trigger] dots@[j + 1], context@.body[j], shade(j)),
        decreases context.snake_parts.len() - i,
    {
        assert(context@.body[i as int].in_grid());
        dots.push(dot_at(context.snake_parts[i], segment_color(i)));
        i += 1;
    }
    Scene { background: background_color(context.game_state), dots }
}

} // verus!
