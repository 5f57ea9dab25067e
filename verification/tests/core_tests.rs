//! The core scenarios: ball creation, collision, reset, and the stage
//! machine's creation, boundary transition, game over and reset.
//!
//! All lengths are milli-pixels, times milliseconds, speeds milli-pixels per
//! second.
use eyemotion::{Ball, GameEvent, GameState};

#[test]
fn test_ball_creation() {
    let ball = Ball::new(1_000_000, 800_000);
    assert_eq!(ball.screen_w, 1_000_000);
    assert_eq!(ball.screen_h, 800_000);
    assert_eq!(ball.radius, 25_000);
    assert_eq!((ball.x, ball.y), (500_000, 400_000));
}

#[test]
fn test_ball_collision() {
    let mut ball = Ball::new(100_000, 100_000);
    ball.set_speed(1_000_000, Some((1000, 0)));
    ball.x = 95_000;

    let bounced = ball.update(10).unwrap();
    assert!(bounced);
}

#[test]
fn test_ball_reset() {
    let mut ball = Ball::new(1_000_000, 800_000);
    ball.x = 100_000;
    ball.y = 100_000;
    ball.reset(800_000, 600_000);

    assert_eq!(ball.screen_w, 800_000);
    assert_eq!(ball.screen_h, 600_000);
    assert_eq!((ball.x, ball.y), (400_000, 300_000));
}

#[test]
fn test_game_state_creation() {
    let state = GameState::new(800_000, 600_000);
    assert_eq!(state.stage, 1);
    assert!(state.is_start_screen);
    assert!(state.is_transitioning);
}

#[test]
fn test_stage_transition() {
    let mut state = GameState::new(800_000, 600_000);
    state.is_start_screen = false;
    state.is_transitioning = false;
    state.stage_elapsed = 46_000;

    let update = state.update(1000).unwrap();
    assert_eq!(state.stage, 2);
    assert!(update
        .events
        .contains(&GameEvent::StageChanged { from: 1, to: 2 }));
}

#[test]
fn test_game_over() {
    let mut state = GameState::new(800_000, 600_000);
    state.is_start_screen = false;
    state.is_transitioning = false;
    state.stage = 5;
    state.stage_elapsed = 46_000;

    let update = state.update(1000).unwrap();
    assert!(state.is_game_over);
    assert!(update.events.contains(&GameEvent::GameOver));
}

#[test]
fn test_reset() {
    let mut state = GameState::new(800_000, 600_000);
    state.stage = 5;
    state.stage_elapsed = 100_000;
    state.is_game_over = true;
    state.paused = true;

    state.reset(1_000_000, 800_000);

    assert_eq!(state.stage, 1);
    assert_eq!(state.stage_elapsed, 0);
    assert!(!state.is_game_over);
    assert!(!state.paused);
    assert!(state.is_transitioning);
    assert_eq!(state.ball.screen_w, 1_000_000);
    assert_eq!(state.ball.screen_h, 800_000);
}
