//! The stage state machine: one session of the tracking exercise.
//!
//! A session walks `StartScreen -> Transitioning -> Playing(stage 1..5) ->
//! GameOver`, with `paused` as an orthogonal flag read at the top of each
//! tick. Each of the five stages is a 45-second motion choreography; a fixed
//! 3-second countdown separates stages. The per-tick transition `update` is
//! the single entry point that advances timers, dispatches the active stage's
//! kinematics, and reports that tick's discrete events.
use vstd::prelude::*;

use crate::ball::{
    circ_angle, lemma_center_in_bounds, lin_axis, lin_rel, room_ok, vel_along, vel_random_dir,
    Ball,
};
use crate::error::CoreError;
use crate::events::{GameEvent, GameUpdate};
use crate::num::{clamp_spec, isqrt, sqrt_of, tdiv, tdiv_i64};
use crate::rng::rand_range;
use crate::trig::{cos_mrad, cos_mrad_spec, sin_mrad, sin_mrad_spec};
use crate::{DT_MAX, MILLI, RESPAWN_MARGIN, SPEED_MAX};

verus! {

/// How long each stage's active phase runs, milliseconds.
pub const STAGE_DURATIONS_MS: i64 = 45_000;

/// The countdown between stages, milliseconds.
pub const TRANSITION_MS: i64 = 3_000;

/// Half of a stage's duration: where stage 3 switches axes, stage 4 reseeds
/// its direction, and stage 5 reverses its orbit.
pub const STAGE_MIDPOINT_MS: i64 = 22_500;

/// End of the window after the midpoint in which the one-time midpoint
/// actions fire.
pub const REVERSAL_WINDOW_END_MS: i64 = 22_600;

/// Length of stage 5's direction-reversal micro-pause, milliseconds.
pub const STAGE5_PAUSE_MS: i64 = 300;

/// Stage 5's explicit margin from every screen edge, milli-pixels (16 px).
pub const STAGE5_MARGIN: i64 = 16_000;

/// Stage 5's orbital speed, milliradians per second (1.2 rad/s).
pub const STAGE5_ANG_SPD_MRAD: i64 = 1_200;

/// Largest magnitude of the random bounce nudge in stage 4, milliradians
/// (about 0.1 rad, or 6 degrees).
pub const NUDGE_ABS_MRAD: i64 = 100;

/// Stage 1 and 5 seed directions between 10 and 20 degrees, in milliradians.
pub const ANGLE15_LO_MRAD: i64 = 175;

pub const ANGLE15_HI_MRAD: i64 = 349;

/// Stage 2 seed directions deviate 5 to 15 degrees from vertical.
pub const ANGLE2_LO_MRAD: i64 = 87;

pub const ANGLE2_HI_MRAD: i64 = 262;

/// Stage 4 seed directions deviate 20 to 70 degrees from vertical.
pub const ANGLE4_LO_MRAD: i64 = 349;

pub const ANGLE4_HI_MRAD: i64 = 1222;

/// The top-level session: the owned ball plus the scalar and boolean stage
/// state. Fields are public so a host can snapshot the whole state for
/// rendering or telemetry.
#[derive(Debug, Clone, Copy, PartialEq, Eq, Structural)]
pub struct GameState {
    pub ball: Ball,
    /// Current stage, 1 to 5.
    pub stage: i32,
    /// Milliseconds since this stage's active phase began.
    pub stage_elapsed: i64,
    pub paused: bool,
    pub is_transitioning: bool,
    /// Milliseconds remaining in the current inter-stage countdown.
    pub transition_timer: i64,
    pub is_game_over: bool,
    pub is_start_screen: bool,
    /// Stage 5's direction-reversal micro-pause state.
    pub stage5_paused: bool,
    pub stage5_pause_elapsed: i64,
}

/// Each stage's base speed, milli-pixels per second.
pub open spec fn stage_speed_spec(stage: int) -> int {
    if stage == 1 {
        1_000_000
    } else if stage == 2 {
        1_100_000
    } else if stage == 3 {
        1_625_000
    } else if stage == 4 {
        1_500_000
    } else if stage == 5 {
        0
    } else {
        1_000_000
    }
}

/// A stage 1 or 5 seed direction: 10 to 20 degrees from horizontal, the
/// horizontal sign a fair coin, the vertical component positive.
pub open spec fn dir_stage15(a: int, dx: int, dy: int) -> bool {
    &&& (dx == cos_mrad_spec(a) || dx == -cos_mrad_spec(a))
    &&& dy == sin_mrad_spec(a)
}

/// A stage 2 seed direction: near-vertical with a 5-to-15-degree horizontal
/// deviation, both signs independent fair coins.
pub open spec fn dir_stage2(a: int, dx: int, dy: int) -> bool {
    &&& (dx == sin_mrad_spec(a) || dx == -sin_mrad_spec(a))
    &&& (dy == cos_mrad_spec(a) || dy == -cos_mrad_spec(a))
}

/// A stage 4 seed direction: 20 to 70 degrees from vertical, the vertical
/// sign a fair coin.
pub open spec fn dir_stage4(a: int, dx: int, dy: int) -> bool {
    &&& dx == sin_mrad_spec(a)
    &&& (dy == cos_mrad_spec(a) || dy == -cos_mrad_spec(a))
}

/// What `stage_direction` may return for each stage.
pub open spec fn dir_ok(stage: int, dx: int, dy: int) -> bool {
    if stage == 1 || stage == 5 {
        exists|a: int|
            ANGLE15_LO_MRAD <= a < ANGLE15_HI_MRAD && #[trigger] dir_stage15(a, dx, dy)
    } else if stage == 2 {
        exists|a: int| ANGLE2_LO_MRAD <= a < ANGLE2_HI_MRAD && #[trigger] dir_stage2(a, dx, dy)
    } else if stage == 3 {
        dx == 0 && (dy == MILLI || dy == -MILLI)
    } else if stage == 4 {
        exists|a: int| ANGLE4_LO_MRAD <= a < ANGLE4_HI_MRAD && #[trigger] dir_stage4(a, dx, dy)
    } else {
        dx == MILLI && dy == MILLI
    }
}

/// The velocity `(vx, vy)` was freshly seeded from stage `stage`'s policy:
/// base speed along some direction the policy allows.
pub open spec fn seeded_vel(stage: int, vx: int, vy: int) -> bool {
    exists|dx: int, dy: int|
        #![trigger vel_along(stage_speed_spec(stage), dx, dy, vx, vy)]
        {
            &&& dir_ok(stage, dx, dy)
            &&& (dx != 0 || dy != 0)
            &&& vel_along(stage_speed_spec(stage), dx, dy, vx, vy)
        }
}

/// `(nvx, nvy)` is `(vx, vy)` rotated by `nudge` milliradians and scaled back
/// to its own magnitude (capped at `SPEED_MAX`). A rotation that collapses to
/// zero in integer arithmetic falls back to a random direction.
pub open spec fn nudged_rel(vx: int, vy: int, nudge: int, nvx: int, nvy: int) -> bool {
    let c = cos_mrad_spec(nudge);
    let s = sin_mrad_spec(nudge);
    let rx = tdiv(vx * c - vy * s, MILLI as int);
    let ry = tdiv(vx * s + vy * c, MILLI as int);
    let spd0 = sqrt_of(vx * vx + vy * vy);
    let spd = if spd0 > SPEED_MAX {
        SPEED_MAX as int
    } else {
        spd0
    };
    if rx != 0 || ry != 0 {
        vel_along(spd, rx, ry, nvx, nvy)
    } else {
        vel_random_dir(spd, nvx, nvy)
    }
}

/// Stage 5's orbit radius: the circle that keeps the ball `STAGE5_MARGIN`
/// inside the top and bottom edges.
pub open spec fn orbit_radius_spec(b: Ball) -> int {
    (b.screen_h - 2 * (b.radius + STAGE5_MARGIN)) / 2
}

/// The events the motion phase of one tick produces.
pub open spec fn bounce_events(bounced: bool) -> Seq<GameEvent> {
    if bounced {
        seq![GameEvent::BallBounced]
    } else {
        Seq::<GameEvent>::empty()
    }
}

/// `b1` is `b0` repositioned by a randomized respawn: same rectangle, position
/// at least `RESPAWN_MARGIN` inside every edge.
pub open spec fn respawned_pos(b0: Ball, b1: Ball) -> bool {
    &&& b1.screen_w == b0.screen_w
    &&& b1.screen_h == b0.screen_h
    &&& b1.radius == b0.radius
    &&& b1.radius + RESPAWN_MARGIN <= b1.x < b1.screen_w - b1.radius - RESPAWN_MARGIN
    &&& b1.radius + RESPAWN_MARGIN <= b1.y < b1.screen_h - b1.radius - RESPAWN_MARGIN
}

/// The motion phase of one active tick: how the current stage's choreography
/// takes the ball of `s0` to `b1`, updates stage 5's micro-pause state to
/// `(p5, pe5)`, and whether a bounce occurred. `e1` is the stage time after
/// this tick's delta was added.
pub open spec fn stage_motion_rel(
    s0: GameState,
    dt: int,
    e1: int,
    b1: Ball,
    p5: bool,
    pe5: int,
    bounced: bool,
) -> bool {
    let b0 = s0.ball;
    if s0.stage == 5 {
        &&& bounced == false
        &&& if s0.stage5_paused {
            &&& b1 == b0
            &&& pe5 == s0.stage5_pause_elapsed + dt
            &&& p5 == (pe5 < STAGE5_PAUSE_MS)
        } else {
            let spd = if e1 < STAGE_MIDPOINT_MS {
                STAGE5_ANG_SPD_MRAD as int
            } else {
                -STAGE5_ANG_SPD_MRAD as int
            };
            let orbit = orbit_radius_spec(b0);
            let a = circ_angle(b0, dt, spd);
            &&& b1.x == clamp_spec(
                b0.screen_w as int / 2 + tdiv(orbit * cos_mrad_spec(a), MILLI as int),
                b0.radius + STAGE5_MARGIN,
                b0.screen_w - b0.radius - STAGE5_MARGIN,
            )
            &&& b1.y == clamp_spec(
                b0.screen_h as int / 2 + tdiv(orbit * sin_mrad_spec(a), MILLI as int),
                b0.radius + STAGE5_MARGIN,
                b0.screen_h - b0.radius - STAGE5_MARGIN,
            )
            &&& b1.vx == b0.vx && b1.vy == b0.vy
            &&& b1.screen_w == b0.screen_w && b1.screen_h == b0.screen_h && b1.radius == b0.radius
            &&& if STAGE_MIDPOINT_MS <= e1 < REVERSAL_WINDOW_END_MS {
                p5 == true && pe5 == 0
            } else {
                p5 == false && pe5 == s0.stage5_pause_elapsed
            }
        }
    } else {
        &&& p5 == s0.stage5_paused
        &&& pe5 == s0.stage5_pause_elapsed
        &&& if s0.stage == 4 {
            let px = lin_axis(b0.x as int, b0.vx as int, dt, b0.radius as int, b0.screen_w as int);
            let py = lin_axis(b0.y as int, b0.vy as int, dt, b0.radius as int, b0.screen_h as int);
            &&& bounced == (px.2 || py.2)
            &&& b1.x == px.0 && b1.y == py.0
            &&& b1.screen_w == b0.screen_w && b1.screen_h == b0.screen_h && b1.radius == b0.radius
            &&& if STAGE_MIDPOINT_MS <= e1 < REVERSAL_WINDOW_END_MS {
                seeded_vel(4, b1.vx as int, b1.vy as int)
            } else if bounced {
                exists|nudge: int|
                    -NUDGE_ABS_MRAD <= nudge <= NUDGE_ABS_MRAD && #[trigger] nudged_rel(
                        px.1,
                        py.1,
                        nudge,
                        b1.vx as int,
                        b1.vy as int,
                    )
            } else {
                b1.vx == px.1 && b1.vy == py.1
            }
        } else if s0.stage == 3 {
            let vhalf = 7 * stage_speed_spec(3) / 10;
            if e1 < STAGE_MIDPOINT_MS {
                let vy0 = if b0.vy >= 0 {
                    vhalf
                } else {
                    -vhalf
                };
                let py = lin_axis(b0.y as int, vy0, dt, b0.radius as int, b0.screen_h as int);
                &&& bounced == py.2
                &&& b1.x == b0.screen_w as int / 2 && b1.vx == 0
                &&& b1.y == py.0 && b1.vy == py.1
                &&& b1.screen_w == b0.screen_w && b1.screen_h == b0.screen_h && b1.radius
                    == b0.radius
            } else {
                let vx0 = if b0.vx >= 0 {
                    stage_speed_spec(3)
                } else {
                    -stage_speed_spec(3)
                };
                let px = lin_axis(b0.x as int, vx0, dt, b0.radius as int, b0.screen_w as int);
                &&& bounced == px.2
                &&& b1.y == b0.screen_h as int / 2 && b1.vy == 0
                &&& b1.x == px.0 && b1.vx == px.1
                &&& b1.screen_w == b0.screen_w && b1.screen_h == b0.screen_h && b1.radius
                    == b0.radius
            }
        } else {
            lin_rel(b0, dt, b1, bounced)
        }
    }
}

/// One active tick (not frozen, not transitioning): the motion phase runs,
/// the stage clock advances to `e1`, and crossing the 45-second boundary
/// either ends the session (stage 5) or advances to the next stage behind a
/// fresh countdown, respawning and reseeding the ball.
pub open spec fn active_rel(s0: GameState, dt: int, s1: GameState, events: Seq<GameEvent>) -> bool {
    let e1 = s0.stage_elapsed + dt;
    exists|bm: Ball, p5: bool, pe5: int, bounced: bool|
        #![trigger stage_motion_rel(s0, dt, e1, bm, p5, pe5, bounced)]
        {
            &&& stage_motion_rel(s0, dt, e1, bm, p5, pe5, bounced)
            &&& s1.stage5_paused == p5
            &&& s1.stage5_pause_elapsed == pe5
            &&& s1.stage_elapsed == e1
            &&& s1.paused == s0.paused
            &&& s1.is_start_screen == s0.is_start_screen
            &&& if e1 > STAGE_DURATIONS_MS {
                if s0.stage >= 5 {
                    &&& s1.is_game_over == true
                    &&& s1.stage == s0.stage
                    &&& s1.is_transitioning == s0.is_transitioning
                    &&& s1.transition_timer == s0.transition_timer
                    &&& s1.ball == bm
                    &&& events == bounce_events(bounced).push(GameEvent::GameOver)
                } else {
                    &&& s1.is_game_over == s0.is_game_over
                    &&& s1.stage == s0.stage + 1
                    &&& s1.is_transitioning == true
                    &&& s1.transition_timer == TRANSITION_MS
                    &&& respawned_pos(bm, s1.ball)
                    &&& seeded_vel(s0.stage + 1, s1.ball.vx as int, s1.ball.vy as int)
                    &&& events == bounce_events(bounced).push(
                        GameEvent::StageChanged { from: s0.stage, to: (s0.stage + 1) as i32 },
                    )
                }
            } else {
                &&& s1.ball == bm
                &&& s1.stage == s0.stage
                &&& s1.is_game_over == s0.is_game_over
                &&& s1.is_transitioning == s0.is_transitioning
                &&& s1.transition_timer == s0.transition_timer
                &&& events == bounce_events(bounced)
            }
        }
}

impl GameState {
    /// The structural part of well-formedness: a well-formed, in-bounds ball
    /// on a screen with respawn room, a valid stage number, and timers inside
    /// the ranges the tick arithmetic needs.
    pub open spec fn wf_core(self) -> bool {
        &&& self.ball.wf()
        &&& room_ok(self.ball.screen_w as int, self.ball.screen_h as int)
        &&& self.ball.in_bounds()
        &&& 1 <= self.stage <= 5
        &&& 0 <= self.stage_elapsed <= STAGE_DURATIONS_MS + 2 * DT_MAX
        &&& -DT_MAX <= self.transition_timer <= TRANSITION_MS
        &&& self.is_transitioning ==> 0 < self.transition_timer
        &&& 0 <= self.stage5_pause_elapsed <= STAGE5_PAUSE_MS + DT_MAX
        &&& self.stage5_paused ==> self.stage5_pause_elapsed < STAGE5_PAUSE_MS
    }

    /// Well-formedness of a session between ticks: the structural part, plus
    /// the stage clock of a session in active play having crossed the stage
    /// boundary at most one tick ago.
    pub open spec fn wf(self) -> bool {
        &&& self.wf_core()
        &&& (!self.is_transitioning && !self.is_game_over && !self.is_start_screen)
            ==> self.stage_elapsed <= STAGE_DURATIONS_MS + DT_MAX
    }

    /// A fresh session on a `w` by `h` screen: stage 1, ball centered with the
    /// stage 1 seed velocity, behind the start screen and an initial
    /// countdown.
    pub fn new(w: i64, h: i64) -> (s: GameState)
        requires
            room_ok(w as int, h as int),
        ensures
            s.stage == 1,
            s.stage_elapsed == 0,
            !s.paused,
            s.is_transitioning,
            s.transition_timer == TRANSITION_MS,
            !s.is_game_over,
            s.is_start_screen,
            !s.stage5_paused,
            s.stage5_pause_elapsed == 0,
            s.ball.screen_w == w && s.ball.screen_h == h,
            s.ball.radius == w as int / 40,
            s.ball.x == w as int / 2 && s.ball.y == h as int / 2,
            seeded_vel(1, s.ball.vx as int, s.ball.vy as int),
            s.wf(),
    {
        let mut ball = Ball::new(w, h);
        let d = stage_direction(1);
        let sp = stage_speed(1);
        ball.set_speed(sp, Some(d));
        proof {
            assert(vel_along(stage_speed_spec(1), d.0 as int, d.1 as int, ball.vx as int,
            ball.vy as int));
        }
        GameState {
            ball,
            stage: 1,
            stage_elapsed: 0,
            paused: false,
            is_transitioning: true,
            transition_timer: TRANSITION_MS,
            is_game_over: false,
            is_start_screen: true,
            stage5_paused: false,
            stage5_pause_elapsed: 0,
        }
    }

    /// One tick of the state machine. In priority order: a finished, unstarted
    /// or paused session does nothing; a transitioning session only runs its
    /// countdown down (the ball does not move); otherwise the stage clock
    /// advances, the active stage's choreography moves the ball, and crossing
    /// the 45-second boundary advances the session. The returned envelope
    /// carries exactly that tick's events and the stage clock. The error
    /// variant is never produced.
    pub fn update(&mut self, dt: i64) -> (res: Result<GameUpdate, CoreError>)
        requires
            old(self).wf(),
            0 <= dt <= DT_MAX,
        ensures
            res is Ok,
            final (self).wf(),
            final (self).ball.in_bounds(),
            res->Ok_0.time_elapsed == final (self).stage_elapsed,
            (old(self).is_game_over || old(self).is_start_screen || old(self).paused) ==> (*final (
            self) == *old(self) && res->Ok_0.events@ == Seq::<GameEvent>::empty()),
            (!old(self).is_game_over && !old(self).is_start_screen && !old(self).paused && old(
            self).is_transitioning) ==> {
                &&& res->Ok_0.events@ == Seq::<GameEvent>::empty()
                &&& final (self).ball == old(self).ball
                &&& final (self).stage == old(self).stage
                &&& final (self).transition_timer == old(self).transition_timer - dt
                &&& final (self).paused == old(self).paused
                &&& final (self).is_game_over == old(self).is_game_over
                &&& final (self).is_start_screen == old(self).is_start_screen
                &&& final (self).stage5_paused == old(self).stage5_paused
                &&& final (self).stage5_pause_elapsed == old(self).stage5_pause_elapsed
                &&& (old(self).transition_timer - dt <= 0 ==> !final (self).is_transitioning
                    && final (self).stage_elapsed == 0)
                &&& (old(self).transition_timer - dt > 0 ==> final (self).is_transitioning
                    && final (self).stage_elapsed == old(self).stage_elapsed)
            },
            (!old(self).is_game_over && !old(self).is_start_screen && !old(self).paused && !old(
            self).is_transitioning) ==> active_rel(
                *old(self),
                dt as int,
                *final (self),
                res->Ok_0.events@,
            ),
            (!old(self).is_game_over && !old(self).is_start_screen && !old(self).paused && !old(
            self).is_transitioning && old(self).stage == 5 && !old(self).stage5_paused) ==> final (
            self).ball.in_margin(STAGE5_MARGIN as int),
    {
        let mut events: Vec<GameEvent> = Vec::new();

        if self.is_game_over || self.is_start_screen || self.paused {
            return Ok(GameUpdate { events, time_elapsed: self.stage_elapsed });
        }

        if self.is_transitioning {
            self.transition_timer = self.transition_timer - dt;
            if self.transition_timer <= 0 {
                self.is_transitioning = false;
                self.stage_elapsed = 0;
            }
            return Ok(GameUpdate { events, time_elapsed: self.stage_elapsed });
        }

        self.stage_elapsed = self.stage_elapsed + dt;
        let e1 = self.stage_elapsed;
        let mut bounced = false;

        if self.stage == 5 {
            if self.stage5_paused {
                self.stage5_pause_elapsed = self.stage5_pause_elapsed + dt;
                if self.stage5_pause_elapsed >= STAGE5_PAUSE_MS {
                    self.stage5_paused = false;
                }
            } else {
                let ang_spd = if e1 < STAGE_MIDPOINT_MS {
                    STAGE5_ANG_SPD_MRAD
                } else {
                    -STAGE5_ANG_SPD_MRAD
                };
                let r = self.ball.radius;
                let orbit = (self.ball.screen_h - 2 * (r + STAGE5_MARGIN)) / 2;
                self.ball.update_circular_with_radius(dt, ang_spd, orbit);
                let min_x = r + STAGE5_MARGIN;
                let max_x = self.ball.screen_w - r - STAGE5_MARGIN;
                let min_y = r + STAGE5_MARGIN;
                let max_y = self.ball.screen_h - r - STAGE5_MARGIN;
                if self.ball.y < min_y {
                    self.ball.y = min_y;
                } else if self.ball.y > max_y {
                    self.ball.y = max_y;
                }
                if self.ball.x < min_x {
                    self.ball.x = min_x;
                } else if self.ball.x > max_x {
                    self.ball.x = max_x;
                }
                if e1 >= STAGE_MIDPOINT_MS && e1 < REVERSAL_WINDOW_END_MS {
                    self.stage5_paused = true;
                    self.stage5_pause_elapsed = 0;
                }
            }
        } else if self.stage == 4 {
            bounced = match self.ball.update(dt) {
                Ok(b) => b,
                Err(e) => {
                    return Err(e);
                },
            };
            if bounced {
                events.push(GameEvent::BallBounced);
                let nudge = rand_range(-NUDGE_ABS_MRAD, NUDGE_ABS_MRAD + 1);
                let c = cos_mrad(nudge);
                let s = sin_mrad(nudge);
                let vx = self.ball.vx;
                let vy = self.ball.vy;
                proof {
                    assert(-(SPEED_MAX * MILLI) <= vx as int * c <= SPEED_MAX * MILLI && -(
                    SPEED_MAX * MILLI) <= vy as int * s <= SPEED_MAX * MILLI && -(SPEED_MAX
                        * MILLI) <= vx as int * s <= SPEED_MAX * MILLI && -(SPEED_MAX * MILLI)
                        <= vy as int * c <= SPEED_MAX * MILLI && 0 <= vx as int * vx <= SPEED_MAX
                        * SPEED_MAX && 0 <= vy as int * vy <= SPEED_MAX * SPEED_MAX)
                        by (nonlinear_arith)
                        requires
                            -SPEED_MAX <= vx <= SPEED_MAX,
                            -SPEED_MAX <= vy <= SPEED_MAX,
                            -MILLI <= c <= MILLI,
                            -MILLI <= s <= MILLI,
                    ;
                    crate::num::lemma_tdiv_bound(
                        vx as int * c - vy as int * s,
                        MILLI as int,
                        2 * SPEED_MAX,
                    );
                    crate::num::lemma_tdiv_bound(
                        vx as int * s + vy as int * c,
                        MILLI as int,
                        2 * SPEED_MAX,
                    );
                }
                let rx = tdiv_i64(vx * c - vy * s, MILLI);
                let ry = tdiv_i64(vx * s + vy * c, MILLI);
                let spd0 = isqrt(vx * vx + vy * vy);
                let spd = if spd0 > SPEED_MAX {
                    SPEED_MAX
                } else {
                    spd0
                };
                self.ball.set_speed(spd, Some((rx, ry)));
                proof {
                    assert(nudged_rel(
                        vx as int,
                        vy as int,
                        nudge as int,
                        self.ball.vx as int,
                        self.ball.vy as int,
                    ));
                }
            }
            if e1 >= STAGE_MIDPOINT_MS && e1 < REVERSAL_WINDOW_END_MS {
                let d = stage_direction(4);
                let sp = stage_speed(4);
                self.ball.set_speed(sp, Some(d));
                proof {
                    assert(vel_along(stage_speed_spec(4), d.0 as int, d.1 as int,
                    self.ball.vx as int, self.ball.vy as int));
                }
            }
        } else if self.stage == 3 {
            let base = stage_speed(3);
            proof {
                lemma_center_in_bounds(
                    self.ball.screen_w as int,
                    self.ball.screen_h as int,
                );
            }
            if e1 < STAGE_MIDPOINT_MS {
                let vhalf = 7 * base / 10;
                self.ball.vx = 0;
                self.ball.x = self.ball.screen_w / 2;
                self.ball.vy = if self.ball.vy >= 0 {
                    vhalf
                } else {
                    -vhalf
                };
            } else {
                self.ball.vy = 0;
                self.ball.y = self.ball.screen_h / 2;
                self.ball.vx = if self.ball.vx >= 0 {
                    base
                } else {
                    -base
                };
            }
            bounced = match self.ball.update(dt) {
                Ok(b) => b,
                Err(e) => {
                    return Err(e);
                },
            };
            if bounced {
                events.push(GameEvent::BallBounced);
            }
        } else {
            bounced = match self.ball.update(dt) {
                Ok(b) => b,
                Err(e) => {
                    return Err(e);
                },
            };
            if bounced {
                events.push(GameEvent::BallBounced);
            }
        }

        let ghost bm = self.ball;
        let ghost p5v = self.stage5_paused;
        let ghost pe5v = self.stage5_pause_elapsed;
        proof {
            assert(stage_motion_rel(*old(self), dt as int, e1 as int, bm, p5v, pe5v as int,
            bounced));
        }

        if self.stage_elapsed > STAGE_DURATIONS_MS {
            self.next_stage(&mut events);
        }

        Ok(GameUpdate { events, time_elapsed: self.stage_elapsed })
    }

    /// Ends the session if the final stage is active; otherwise advances to
    /// the next stage behind a fresh countdown, respawning the ball at a
    /// random edge-avoiding position with the new stage's seed velocity.
    pub fn next_stage(&mut self, events: &mut Vec<GameEvent>)
        requires
            old(self).wf_core(),
        ensures
            final (self).wf(),
            old(self).stage >= 5 ==> {
                &&& *final (self) == (GameState { is_game_over: true, ..*old(self) })
                &&& final (events)@ == old(events)@.push(GameEvent::GameOver)
            },
            old(self).stage < 5 ==> {
                &&& final (self).stage == old(self).stage + 1
                &&& final (self).is_transitioning
                &&& final (self).transition_timer == TRANSITION_MS
                &&& final (self).stage_elapsed == old(self).stage_elapsed
                &&& final (self).paused == old(self).paused
                &&& final (self).is_game_over == old(self).is_game_over
                &&& final (self).is_start_screen == old(self).is_start_screen
                &&& final (self).stage5_paused == old(self).stage5_paused
                &&& final (self).stage5_pause_elapsed == old(self).stage5_pause_elapsed
                &&& respawned_pos(old(self).ball, final (self).ball)
                &&& seeded_vel(
                    old(self).stage + 1,
                    final (self).ball.vx as int,
                    final (self).ball.vy as int,
                )
                &&& final (events)@ == old(events)@.push(
                    GameEvent::StageChanged {
                        from: old(self).stage,
                        to: (old(self).stage + 1) as i32,
                    },
                )
            },
    {
        if self.stage >= 5 {
            self.is_game_over = true;
            events.push(GameEvent::GameOver);
        } else {
            let prev = self.stage;
            self.stage = self.stage + 1;
            self.is_transitioning = true;
            self.transition_timer = TRANSITION_MS;
            let w = self.ball.screen_w;
            let h = self.ball.screen_h;
            self.ball.reset_to_random_pos(w, h);
            let d = stage_direction(self.stage);
            let sp = stage_speed(self.stage);
            self.ball.set_speed(sp, Some(d));
            proof {
                assert(vel_along(stage_speed_spec(old(self).stage + 1), d.0 as int, d.1 as int,
                self.ball.vx as int, self.ball.vy as int));
            }
            events.push(GameEvent::StageChanged { from: prev, to: self.stage });
        }
    }

    /// Steps back one stage behind a fresh countdown, respawning and reseeding
    /// the ball; a no-op below stage 2.
    pub fn prev_stage(&mut self, events: &mut Vec<GameEvent>)
        requires
            old(self).wf_core(),
        ensures
            final (self).wf_core(),
            old(self).wf() ==> final (self).wf(),
            old(self).stage <= 1 ==> {
                &&& *final (self) == *old(self)
                &&& final (events)@ == old(events)@
            },
            old(self).stage > 1 ==> {
                &&& final (self).stage == old(self).stage - 1
                &&& final (self).is_transitioning
                &&& final (self).transition_timer == TRANSITION_MS
                &&& final (self).stage_elapsed == old(self).stage_elapsed
                &&& final (self).paused == old(self).paused
                &&& final (self).is_game_over == old(self).is_game_over
                &&& final (self).is_start_screen == old(self).is_start_screen
                &&& final (self).stage5_paused == old(self).stage5_paused
                &&& final (self).stage5_pause_elapsed == old(self).stage5_pause_elapsed
                &&& respawned_pos(old(self).ball, final (self).ball)
                &&& seeded_vel(
                    old(self).stage - 1,
                    final (self).ball.vx as int,
                    final (self).ball.vy as int,
                )
                &&& final (events)@ == old(events)@.push(
                    GameEvent::StageChanged {
                        from: old(self).stage,
                        to: (old(self).stage - 1) as i32,
                    },
                )
            },
    {
        if self.stage > 1 {
            let prev = self.stage;
            self.stage = self.stage - 1;
            self.is_transitioning = true;
            self.transition_timer = TRANSITION_MS;
            let w = self.ball.screen_w;
            let h = self.ball.screen_h;
            self.ball.reset_to_random_pos(w, h);
            let d = stage_direction(self.stage);
            let sp = stage_speed(self.stage);
            self.ball.set_speed(sp, Some(d));
            proof {
                assert(vel_along(stage_speed_spec(old(self).stage - 1), d.0 as int, d.1 as int,
                self.ball.vx as int, self.ball.vy as int));
            }
            events.push(GameEvent::StageChanged { from: prev, to: self.stage });
        }
    }

    /// Reinitializes the session to stage 1 on a `w` by `h` screen: ball
    /// centered with the stage 1 seed velocity, a fresh countdown, and every
    /// flag cleared except `is_transitioning`, which holds the countdown.
    pub fn reset(&mut self, w: i64, h: i64)
        requires
            room_ok(w as int, h as int),
        ensures
            final (self).stage == 1,
            final (self).stage_elapsed == 0,
            !final (self).is_game_over,
            final (self).is_transitioning,
            final (self).transition_timer == TRANSITION_MS,
            !final (self).paused,
            !final (self).is_start_screen,
            !final (self).stage5_paused,
            final (self).stage5_pause_elapsed == 0,
            final (self).ball.screen_w == w && final (self).ball.screen_h == h,
            final (self).ball.radius == w as int / 40,
            final (self).ball.x == w as int / 2 && final (self).ball.y == h as int / 2,
            seeded_vel(1, final (self).ball.vx as int, final (self).ball.vy as int),
            final (self).wf(),
    {
        self.stage = 1;
        self.stage_elapsed = 0;
        self.is_game_over = false;
        self.is_transitioning = true;
        self.transition_timer = TRANSITION_MS;
        self.paused = false;
        self.is_start_screen = false;
        self.stage5_paused = false;
        self.stage5_pause_elapsed = 0;
        self.ball.reset(w, h);
        let d = stage_direction(1);
        let sp = stage_speed(1);
        self.ball.set_speed(sp, Some(d));
        proof {
            assert(vel_along(stage_speed_spec(1), d.0 as int, d.1 as int, self.ball.vx as int,
            self.ball.vy as int));
        }
    }

    /// Forwards a viewport change to the kinematics engine; timers, stage and
    /// flags are untouched.
    pub fn resize(&mut self, w: i64, h: i64)
        requires
            old(self).wf(),
            room_ok(w as int, h as int),
        ensures
            final (self).ball.screen_w == w && final (self).ball.screen_h == h,
            final (self).ball.radius == w as int / 40,
            final (self).ball.x == clamp_spec(
                tdiv(old(self).ball.x * w, old(self).ball.screen_w as int),
                final (self).ball.radius as int,
                w - final (self).ball.radius,
            ),
            final (self).ball.y == clamp_spec(
                tdiv(old(self).ball.y * h, old(self).ball.screen_h as int),
                final (self).ball.radius as int,
                h - final (self).ball.radius,
            ),
            final (self).ball.vx == old(self).ball.vx && final (self).ball.vy == old(
            self).ball.vy,
            *final (self) == (GameState { ball: final (self).ball, ..*old(self) }),
            final (self).wf(),
    {
        self.ball.update_screen_size(w, h);
    }
}

/// The per-stage seed direction, freshly sampled: the randomized unit-vector
/// (scaled by 1000) with which a stage's initial velocity is set.
pub fn stage_direction(stage: i32) -> (d: (i64, i64))
    ensures
        dir_ok(stage as int, d.0 as int, d.1 as int),
        -MILLI <= d.0 <= MILLI,
        -MILLI <= d.1 <= MILLI,
        d.0 != 0 || d.1 != 0,
{
    if stage == 1 || stage == 5 {
        let a = rand_range(ANGLE15_LO_MRAD, ANGLE15_HI_MRAD);
        let c = cos_mrad(a);
        let s = sin_mrad(a);
        let flip = rand_range(0, 2);
        let d = if flip == 0 {
            (c, s)
        } else {
            (-c, s)
        };
        proof {
            crate::trig::lemma_cos_pos(a as int);
            assert(dir_stage15(a as int, d.0 as int, d.1 as int));
        }
        d
    } else if stage == 2 {
        let a = rand_range(ANGLE2_LO_MRAD, ANGLE2_HI_MRAD);
        let c = cos_mrad(a);
        let s = sin_mrad(a);
        let fx = rand_range(0, 2);
        let fy = rand_range(0, 2);
        let dx = if fx == 0 {
            s
        } else {
            -s
        };
        let dy = if fy == 0 {
            c
        } else {
            -c
        };
        proof {
            crate::trig::lemma_sin_pos(a as int);
            assert(dir_stage2(a as int, dx as int, dy as int));
        }
        (dx, dy)
    } else if stage == 4 {
        let a = rand_range(ANGLE4_LO_MRAD, ANGLE4_HI_MRAD);
        let c = cos_mrad(a);
        let s = sin_mrad(a);
        let fy = rand_range(0, 2);
        let dy = if fy == 0 {
            c
        } else {
            -c
        };
        proof {
            crate::trig::lemma_sin_pos(a as int);
            assert(dir_stage4(a as int, s as int, dy as int));
        }
        (s, dy)
    } else if stage == 3 {
        let f = rand_range(0, 2);
        if f == 0 {
            (0, MILLI)
        } else {
            (0, -MILLI)
        }
    } else {
        (MILLI, MILLI)
    }
}

/// Each stage's base speed, milli-pixels per second.
pub fn stage_speed(stage: i32) -> (r: i64)
    ensures
        r == stage_speed_spec(stage as int),
        0 <= r <= SPEED_MAX,
{
    if stage == 1 {
        1_000_000
    } else if stage == 2 {
        1_100_000
    } else if stage == 3 {
        1_625_000
    } else if stage == 4 {
        1_500_000
    } else if stage == 5 {
        0
    } else {
        1_000_000
    }
}

} // verus!
