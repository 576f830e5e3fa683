//! What the main loop decides: what an input does to the game, and on which
//! frames the game ticks.

use crate::game::{GameContext, GameModel};
use crate::direction::SnakeDirection;
use vstd::prelude::*;

verus! {

/// Frames shown per second.
pub const FRAMES_PER_SECOND: u32 = 30;

/// The game ticks once in this many frames.
pub const FRAMES_PER_TICK: u32 = 6;

/// The keys the game tells apart.
#[derive(Copy, Clone, Debug, PartialEq, Eq, Structural)]
pub enum Key {
    W,
    A,
    S,
    D,
    Space,
    Escape,
    Other,
}

/// What the main loop tells apart of an input event.
#[derive(Copy, Clone, Debug, PartialEq, Eq, Structural)]
pub enum Input {
    /// The window was closed.
    Quit,
    /// A key went down.
    KeyDown(Key),
    /// Anything else.
    Other,
}

/// Whether `input` ends the program: closing the window and Escape do.
pub open spec fn quits(input: Input) -> bool {
    input == Input::Quit || input == Input::KeyDown(Key::Escape)
}

/// What `input` does to the game: W, A, S, D ask for a turn up, left, down,
/// right, Space pauses or resumes, and nothing else has any effect.
pub open spec fn reaction(m: GameModel, input: Input) -> GameModel {
    match input {
        Input::KeyDown(Key::W) => m.steer(SnakeDirection::Up),
        Input::KeyDown(Key::A) => m.steer(SnakeDirection::Left),
        Input::KeyDown(Key::S) => m.steer(SnakeDirection::Down),
        Input::KeyDown(Key::D) => m.steer(SnakeDirection::Right),
        Input::KeyDown(Key::Space) => m.toggle_pause(),
        _ => m,
    }
}

/// Applies `input` to the game and tells whether the program goes on.
pub fn handle_input(context: &mut GameContext, input: Input) -> (go_on: bool)
    ensures
        go_on == !quits(input),
        final(context)@ == reaction(old(context)@, input),
{
    match input {
        Input::Quit => false,
        Input::KeyDown(key) => match key {
            Key::W => {
                context.move_up();
                true
            },
            Key::A => {
                context.move_left();
                true
            },
            Key::S => {
                context.move_down();
                true
            },
            Key::D => {
                context.move_right();
                true
            },
            Key::Space => {
                context.toggle_pause();
                true
            },
            Key::Escape => false,
            Key::Other => true,
        },
        Input::Other => true,
    }
}

/// How long one frame lasts, in nanoseconds.
pub fn frame_nanos() -> (nanos: u32)
    ensures
        nanos == 1_000_000_000u32 / FRAMES_PER_SECOND,
{
    1_000_000_000u32 / FRAMES_PER_SECOND
}

/// Counts frames and tells which of them the game ticks on.
#[derive(Copy, Clone, Debug, PartialEq, Eq, Structural)]
pub struct FrameClock {
    /// Frames shown since the last tick.
    pub elapsed: u32,
}

/// The count after one more frame: back to 0 when a tick falls due.
pub open spec fn next_elapsed(elapsed: u32) -> u32 {
    if elapsed + 1 >= FRAMES_PER_TICK {
        0
    } else {
        (elapsed + 1) as u32
    }
}

impl FrameClock {
    /// A clock on which no frame has been shown yet.
    pub fn new() -> (clock: FrameClock)
        ensures
            clock.elapsed == 0,
    {
        FrameClock { elapsed: 0 }
    }

    /// Counts one frame and tells whether the game ticks on it.
    pub fn frame_shown(&mut self) -> (tick_due: bool)
        ensures
            final(self).elapsed == next_elapsed(old(self).elapsed),
            tick_due == (final(self).elapsed == 0),
    {
        if self.elapsed >= FRAMES_PER_TICK - 1 {
            self.elapsed = 0;
            true
        } else {
            self.elapsed += 1;
            false
        }
    }
}

/// Starting from a fresh clock or right after a tick, the next tick falls on
/// the sixth frame and on none before.
pub proof fn lemma_tick_every_sixth_frame(elapsed: u32)
    requires
        elapsed < FRAMES_PER_TICK,
    ensures
        next_elapsed(elapsed) == (elapsed + 1) % (FRAMES_PER_TICK as int),
        next_elapsed(elapsed) < FRAMES_PER_TICK,
{
}

} // verus!
