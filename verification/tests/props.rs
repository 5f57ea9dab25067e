//! Behavioral properties of the simulation: boundary containment, direction
//! sampling, idempotence under zero velocity, stage-boundary and terminal
//! event discipline, resize round trips, and the per-stage choreographies.
use eyemotion::game_state::{STAGE5_MARGIN, TRANSITION_MS};
use eyemotion::{Ball, GameEvent, GameState};

fn started(w: i64, h: i64) -> GameState {
    let mut s = GameState::new(w, h);
    s.is_start_screen = false;
    s.is_transitioning = false;
    s
}

#[test]
fn ball_stays_in_bounds_all_linear_stages() {
    for stage in 1..5i32 {
        let mut s = started(800_000, 600_000);
        s.stage = stage;
        for _ in 0..300 {
            s.update(16).unwrap();
            let b = &s.ball;
            assert!(b.radius <= b.x && b.x <= b.screen_w - b.radius);
            assert!(b.radius <= b.y && b.y <= b.screen_h - b.radius);
        }
    }
}

#[test]
fn ball_keeps_margin_in_stage_five() {
    let mut s = started(800_000, 600_000);
    s.stage = 5;
    for _ in 0..300 {
        s.update(16).unwrap();
        let b = &s.ball;
        let m = b.radius + STAGE5_MARGIN;
        assert!(m <= b.x && b.x <= b.screen_w - m);
        assert!(m <= b.y && b.y <= b.screen_h - m);
    }
}

#[test]
fn random_directions_cover_all_quadrants() {
    let mut ball = Ball::new(800_000, 600_000);
    let speed = 1_000_000i64;
    let mut quadrants = [0u32; 4];
    for _ in 0..400 {
        ball.set_speed(speed, None);
        let (vx, vy) = (ball.vx, ball.vy);
        let mag2 = vx * vx + vy * vy;
        assert!(mag2 <= 1_002_000 * 1_002_000);
        assert!(mag2 >= 980_000 * 980_000);
        if vx > 0 && vy > 0 {
            quadrants[0] += 1;
        } else if vx < 0 && vy > 0 {
            quadrants[1] += 1;
        } else if vx < 0 && vy < 0 {
            quadrants[2] += 1;
        } else if vx > 0 && vy < 0 {
            quadrants[3] += 1;
        }
    }
    for q in quadrants.iter() {
        assert!(*q > 0, "a quadrant was never sampled over 400 draws");
    }
}

#[test]
fn zero_velocity_never_moves_or_bounces() {
    let mut ball = Ball::new(800_000, 600_000);
    assert_eq!((ball.vx, ball.vy), (0, 0));
    for _ in 0..5 {
        let bounced = ball.update(1000).unwrap();
        assert!(!bounced);
        assert_eq!((ball.x, ball.y), (400_000, 300_000));
    }
}

#[test]
fn stage_boundary_emits_exactly_one_change() {
    let mut s = started(800_000, 600_000);
    s.stage_elapsed = 44_999;
    let u = s.update(2).unwrap();
    let changes = u
        .events
        .iter()
        .filter(|e| matches!(e, GameEvent::StageChanged { .. }))
        .count();
    assert_eq!(changes, 1);
    assert!(u.events.contains(&GameEvent::StageChanged { from: 1, to: 2 }));
    assert_eq!(s.stage, 2);
    assert!(s.is_transitioning);
    assert_eq!(s.transition_timer, TRANSITION_MS);

    let u2 = s.update(3000).unwrap();
    assert!(!s.is_transitioning);
    assert_eq!(s.stage_elapsed, 0);
    assert!(u2.events.is_empty());
}

#[test]
fn game_over_is_emitted_once_and_is_terminal() {
    let mut s = started(800_000, 600_000);
    s.stage = 5;
    s.stage_elapsed = 44_990;
    let u = s.update(20).unwrap();
    assert_eq!(u.events.len(), 1);
    assert_eq!(u.events[0], GameEvent::GameOver);
    assert!(s.is_game_over);

    let frozen = s.clone();
    for _ in 0..10 {
        let un = s.update(5000).unwrap();
        assert!(un.events.is_empty());
        assert_eq!(s, frozen);
    }
}

#[test]
fn resize_round_trip_restores_position() {
    let mut ball = Ball::new(800_000, 600_000);
    ball.x = 333_333;
    ball.y = 222_221;
    ball.update_screen_size(1_600_000, 1_200_000);
    ball.update_screen_size(800_000, 600_000);
    assert!((ball.x - 333_333).abs() <= 1);
    assert!((ball.y - 222_221).abs() <= 1);
}

#[test]
fn fresh_session_tick_consumes_countdown() {
    // With the start screen still up, a tick is a no-op by the priority order.
    let mut blocked = GameState::new(800_000, 600_000);
    let u0 = blocked.update(3000).unwrap();
    assert!(blocked.is_transitioning);
    assert!(u0.events.is_empty());

    // Once the host signals the start, one 3-second tick exhausts the
    // countdown: not transitioning, stage clock at zero, no events.
    let mut s = GameState::new(800_000, 600_000);
    s.is_start_screen = false;
    let u = s.update(3000).unwrap();
    assert!(!s.is_transitioning);
    assert_eq!(s.stage_elapsed, 0);
    assert!(u.events.is_empty());
    assert_eq!(u.time_elapsed, 0);
}

#[test]
fn stage_three_locks_axes_per_half() {
    let mut s = started(800_000, 600_000);
    s.stage = 3;
    s.update(16).unwrap();
    assert_eq!(s.ball.x, 400_000);
    assert_eq!(s.ball.vx, 0);
    assert_eq!(s.ball.vy, 1_137_500);
    assert_eq!(s.ball.y, 318_200);

    s.stage_elapsed = 22_500;
    s.update(16).unwrap();
    assert_eq!(s.ball.y, 300_000);
    assert_eq!(s.ball.vy, 0);
    assert_eq!(s.ball.vx, 1_625_000);
    assert_eq!(s.ball.x, 426_000);
}

#[test]
fn stage_five_micro_pause_at_midpoint() {
    let mut s = started(800_000, 600_000);
    s.stage = 5;
    s.stage_elapsed = 22_480;
    s.update(25).unwrap();
    assert!(s.stage5_paused);
    assert_eq!(s.stage5_pause_elapsed, 0);

    let held = (s.ball.x, s.ball.y);
    s.update(100).unwrap();
    assert!(s.stage5_paused);
    assert_eq!(s.stage5_pause_elapsed, 100);
    assert_eq!((s.ball.x, s.ball.y), held);

    s.update(250).unwrap();
    assert!(!s.stage5_paused);
}

#[test]
fn stage_four_bounce_nudges_but_keeps_speed() {
    let mut s = started(800_000, 600_000);
    s.stage = 4;
    s.ball.x = s.ball.screen_w - s.ball.radius - 100;
    s.ball.vx = 1_500_000;
    s.ball.vy = 0;
    let u = s.update(100).unwrap();
    assert!(u.events.contains(&GameEvent::BallBounced));
    assert!(s.ball.vx < 0, "the bounce must reflect leftward");
    let mag2 = s.ball.vx * s.ball.vx + s.ball.vy * s.ball.vy;
    assert!(mag2 >= 1_400_000 * 1_400_000);
    assert!(mag2 <= 1_550_000 * 1_550_000);
}

#[test]
fn stage_four_reseeds_at_midpoint() {
    let mut s = started(800_000, 600_000);
    s.stage = 4;
    s.stage_elapsed = 22_490;
    s.update(20).unwrap();
    assert!(s.ball.vx > 0, "stage 4 directions have a positive horizontal part");
    let mag2 = s.ball.vx * s.ball.vx + s.ball.vy * s.ball.vy;
    assert!(mag2 >= 1_450_000 * 1_450_000);
    assert!(mag2 <= 1_510_000 * 1_510_000);
}

#[test]
fn advancing_respawns_inside_margins() {
    let mut xs = Vec::new();
    for _ in 0..10 {
        let mut s = started(800_000, 600_000);
        let mut events = Vec::new();
        s.next_stage(&mut events);
        assert_eq!(s.stage, 2);
        assert!(events.contains(&GameEvent::StageChanged { from: 1, to: 2 }));
        let b = &s.ball;
        assert!(b.radius + 50_000 <= b.x && b.x < b.screen_w - b.radius - 50_000);
        assert!(b.radius + 50_000 <= b.y && b.y < b.screen_h - b.radius - 50_000);
        xs.push((b.x, b.y));
    }
    let first = xs[0];
    assert!(
        xs.iter().any(|p| *p != first),
        "ten respawns never moved the ball: the random source looks constant"
    );
}

#[test]
fn retreat_is_a_no_op_below_stage_two() {
    let mut s = started(800_000, 600_000);
    let before = s.clone();
    let mut events = Vec::new();
    s.prev_stage(&mut events);
    assert_eq!(s, before);
    assert!(events.is_empty());

    s.stage = 3;
    s.prev_stage(&mut events);
    assert_eq!(s.stage, 2);
    assert!(events.contains(&GameEvent::StageChanged { from: 3, to: 2 }));
    assert!(s.is_transitioning);
}

#[test]
fn advancing_past_final_stage_ends_session() {
    let mut s = started(800_000, 600_000);
    s.stage = 5;
    let held = (s.ball.x, s.ball.y);
    let mut events = Vec::new();
    s.next_stage(&mut events);
    assert!(s.is_game_over);
    assert_eq!(events, vec![GameEvent::GameOver]);
    assert_eq!((s.ball.x, s.ball.y), held);
}

#[test]
fn reset_clears_every_flag_but_the_countdown() {
    let mut s = GameState::new(800_000, 600_000);
    s.stage = 5;
    s.is_game_over = true;
    s.paused = true;
    s.stage5_paused = true;
    s.stage5_pause_elapsed = 150;
    assert!(s.is_start_screen);

    s.reset(800_000, 600_000);

    assert!(!s.is_start_screen);
    assert!(!s.is_game_over);
    assert!(!s.paused);
    assert!(!s.stage5_paused);
    assert_eq!(s.stage5_pause_elapsed, 0);
    assert!(s.is_transitioning);
    assert_eq!(s.transition_timer, TRANSITION_MS);
}

#[test]
fn orbit_resumes_from_the_position_angle() {
    let mut s = started(800_000, 600_000);
    s.stage = 5;
    // Place the ball due right of the screen center: its angle is zero, so a
    // 100 ms tick advances it by exactly 120 milliradians on the margin orbit.
    s.ball.x = 500_000;
    s.ball.y = 300_000;
    s.update(100).unwrap();
    assert_eq!(s.ball.x, 661_888);
    assert_eq!(s.ball.y, 331_944);
}

#[test]
fn nonzero_speed_never_strands_the_ball() {
    let mut ball = Ball::new(800_000, 600_000);
    for _ in 0..50 {
        ball.set_speed(1000, Some((0, 0)));
        assert!(ball.vx != 0 || ball.vy != 0);
        ball.set_speed(1000, None);
        assert!(ball.vx != 0 || ball.vy != 0);
    }
}

#[test]
fn pause_freezes_everything() {
    let mut s = started(800_000, 600_000);
    s.stage_elapsed = 10_000;
    s.paused = true;
    let before = s.clone();
    let u = s.update(5000).unwrap();
    assert_eq!(s, before);
    assert!(u.events.is_empty());
    assert_eq!(u.time_elapsed, 10_000);
}
