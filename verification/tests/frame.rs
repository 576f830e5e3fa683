use rusty_snake::driver::{frame_nanos, handle_input, FrameClock, Input, Key, FRAMES_PER_SECOND, FRAMES_PER_TICK};
use rusty_snake::scene::{background_color, dot_at, food_color, scene, segment_color, window_size, Dot, Rgb};
use rusty_snake::{GameContext, GameState, Point, SnakeDirection};

#[test]
fn window_is_the_grid_in_pixels() {
    assert_eq!(window_size(), (300, 300));
}

#[test]
fn background_tells_the_state() {
    assert_eq!(background_color(GameState::Playing), Rgb(0, 0, 0));
    assert_eq!(background_color(GameState::Paused), Rgb(30, 30, 30));
    assert_eq!(background_color(GameState::GameOver), Rgb(60, 0, 0));
}

#[test]
fn segments_alternate_between_two_shades() {
    assert_eq!(segment_color(0), Rgb(245, 110, 0));
    assert_eq!(segment_color(1), Rgb(202, 91, 0));
    assert_eq!(segment_color(2), Rgb(245, 110, 0));
    assert_eq!(segment_color(17), Rgb(202, 91, 0));
    assert_eq!(food_color(), Rgb(252, 186, 3));
}

#[test]
fn a_dot_is_the_cell_scaled_to_pixels() {
    let dot = dot_at(Point(3, 7), Rgb(1, 2, 3));
    assert_eq!(dot, Dot { x: 60, y: 140, width: 20, height: 20, color: Rgb(1, 2, 3) });
    let corner = dot_at(Point(14, 14), Rgb(0, 0, 0));
    assert_eq!((corner.x, corner.y), (280, 280));
    let origin = dot_at(Point(0, 0), Rgb(0, 0, 0));
    assert_eq!((origin.x, origin.y), (0, 0));
}

#[test]
fn scene_of_a_new_game() {
    let frame = scene(&GameContext::new());
    assert_eq!(frame.background, Rgb(30, 30, 30));
    assert_eq!(
        frame.dots,
        vec![
            Dot { x: 60, y: 60, width: 20, height: 20, color: Rgb(252, 186, 3) },
            Dot { x: 60, y: 20, width: 20, height: 20, color: Rgb(245, 110, 0) },
            Dot { x: 40, y: 20, width: 20, height: 20, color: Rgb(202, 91, 0) },
            Dot { x: 20, y: 20, width: 20, height: 20, color: Rgb(245, 110, 0) },
        ]
    );
}

#[test]
fn scene_follows_the_game() {
    let mut g = GameContext::new();
    g.toggle_pause();
    g.next_tick();
    let frame = scene(&g);
    assert_eq!(frame.background, Rgb(0, 0, 0));
    assert_eq!(frame.dots.len(), 4);
    assert_eq!((frame.dots[1].x, frame.dots[1].y), (80, 20));
    assert_eq!((frame.dots[3].x, frame.dots[3].y), (40, 20));
}

#[test]
fn keys_steer_and_pause() {
    let mut g = GameContext::new();
    assert!(handle_input(&mut g, Input::KeyDown(Key::W)));
    assert_eq!(g.next_direction, SnakeDirection::Up);
    assert!(handle_input(&mut g, Input::KeyDown(Key::S)));
    assert_eq!(g.next_direction, SnakeDirection::Down);
    assert!(handle_input(&mut g, Input::KeyDown(Key::D)));
    assert_eq!(g.next_direction, SnakeDirection::Right);
    assert!(handle_input(&mut g, Input::KeyDown(Key::A)));
    assert_eq!(g.next_direction, SnakeDirection::Right);
    assert!(handle_input(&mut g, Input::KeyDown(Key::Space)));
    assert_eq!(g.game_state, GameState::Playing);
    assert!(handle_input(&mut g, Input::KeyDown(Key::Space)));
    assert_eq!(g.game_state, GameState::Paused);
}

#[test]
fn left_key_turns_a_snake_that_is_not_heading_right() {
    let mut g = GameContext::new();
    g.game_direction = SnakeDirection::Up;
    assert!(handle_input(&mut g, Input::KeyDown(Key::A)));
    assert_eq!(g.next_direction, SnakeDirection::Left);
}

#[test]
fn quit_and_escape_end_the_program_and_leave_the_game_alone() {
    let mut g = GameContext::new();
    assert!(!handle_input(&mut g, Input::Quit));
    assert!(!handle_input(&mut g, Input::KeyDown(Key::Escape)));
    assert_eq!(g, GameContext::new());
}

#[test]
fn other_input_is_ignored() {
    let mut g = GameContext::new();
    assert!(handle_input(&mut g, Input::Other));
    assert!(handle_input(&mut g, Input::KeyDown(Key::Other)));
    assert_eq!(g, GameContext::new());
}

#[test]
fn the_game_ticks_on_every_sixth_frame() {
    assert_eq!(FRAMES_PER_TICK, 6);
    let mut clock = FrameClock::new();
    assert_eq!(clock.elapsed, 0);
    for frame in 1..=60u32 {
        let due = clock.frame_shown();
        assert_eq!(due, frame % 6 == 0, "frame {}", frame);
        assert_eq!(clock.elapsed, frame % 6);
    }
}

#[test]
fn a_clock_that_is_past_due_ticks_at_once() {
    let mut clock = FrameClock { elapsed: 100 };
    assert!(clock.frame_shown());
    assert_eq!(clock.elapsed, 0);
    let mut clock = FrameClock { elapsed: u32::MAX };
    assert!(clock.frame_shown());
    assert_eq!(clock.elapsed, 0);
}

#[test]
fn a_frame_lasts_a_thirtieth_of_a_second() {
    assert_eq!(FRAMES_PER_SECOND, 30);
    assert_eq!(frame_nanos(), 33_333_333);
}
