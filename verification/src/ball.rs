//! The kinematics engine: the moving ball, its bounding rectangle, and the
//! position-update primitives (linear integration with edge reflection,
//! screen-relative circular orbiting, proportional rescaling on resize).
//!
//! Positions and lengths are milli-pixels, velocities milli-pixels per second,
//! times milliseconds, angles milliradians (see the crate root). Circular
//! motion derives its orbit angle from the ball's position relative to the
//! screen center, and leaves the (frozen) velocity alone until linear
//! integration resumes.
use vstd::prelude::*;

use crate::num::{clamp, clamp_spec, isqrt, lemma_tdiv_bound, lemma_tdiv_nonzero, sqrt_of, tdiv,
    tdiv_i64};
use crate::rng::rand_range;
use crate::trig::{atan2_mrad, atan2_spec, cos_mrad, cos_mrad_spec, norm_mrad, norm_mrad_spec,
    sin_mrad, sin_mrad_spec};
use crate::{DIM_MAX, DIM_MIN, DIR_ABS_MAX, DT_MAX, MILLI, RESPAWN_MARGIN, SPEED_MAX, TWO_PI_MRAD};
use crate::ANG_SPD_ABS_MAX;

verus! {

/// Screen dimensions the kinematics accepts: both inside the machine limits,
/// and tall enough that the ball's diameter (a fortieth of the width, twice)
/// fits vertically.
pub open spec fn dims_ok(w: int, h: int) -> bool {
    &&& DIM_MIN <= w <= DIM_MAX
    &&& DIM_MIN <= h <= DIM_MAX
    &&& 2 * (w / 40) <= h
}

/// Screen dimensions with enough room to respawn the ball at a random
/// position that keeps `RESPAWN_MARGIN` away from every edge: the respawn
/// band on each axis must be non-empty.
pub open spec fn room_ok(w: int, h: int) -> bool {
    &&& dims_ok(w, h)
    &&& w > 2 * (w / 40) + 2 * RESPAWN_MARGIN
    &&& h > 2 * (w / 40) + 2 * RESPAWN_MARGIN
}

/// The moving point-mass under observation.
#[derive(Debug, Clone, Copy, PartialEq, Eq, Structural)]
pub struct Ball {
    /// Current bounding rectangle, milli-pixels.
    pub screen_w: i64,
    pub screen_h: i64,
    /// Derived: `screen_w / 40`.
    pub radius: i64,
    /// Position, milli-pixels.
    pub x: i64,
    pub y: i64,
    /// Velocity, milli-pixels per second. Frozen (kept but unused) while the
    /// ball moves on a circular orbit.
    pub vx: i64,
    pub vy: i64,
}

/// The velocity `(vx, vy)` points along `(dx, dy)` with magnitude `speed`,
/// after integer normalization by the direction's length.
pub open spec fn vel_along(speed: int, dx: int, dy: int, vx: int, vy: int) -> bool {
    &&& vx == tdiv(dx * speed, sqrt_of(dx * dx + dy * dy))
    &&& vy == tdiv(dy * speed, sqrt_of(dx * dx + dy * dy))
}

/// The velocity `(vx, vy)` has magnitude `speed` along the unit vector of
/// angle `a` milliradians.
pub open spec fn vel_at_angle(speed: int, a: int, vx: int, vy: int) -> bool {
    &&& vx == tdiv(speed * cos_mrad_spec(a), MILLI as int)
    &&& vy == tdiv(speed * sin_mrad_spec(a), MILLI as int)
}

/// The velocity `(vx, vy)` has magnitude `speed` along some sampled direction
/// of the full circle.
pub open spec fn vel_random_dir(speed: int, vx: int, vy: int) -> bool {
    exists|a: int| 0 <= a < TWO_PI_MRAD && #[trigger] vel_at_angle(speed, a, vx, vy)
}

/// One axis of a linear integration step: move by `tdiv(vel * dt, 1000)`,
/// then reflect off `[r, limit - r]`. The low edge forces the velocity
/// outward (positive), the high edge inward (negative).
pub open spec fn lin_axis(pos: int, vel: int, dt: int, r: int, limit: int) -> (int, int, bool) {
    let moved = pos + tdiv(vel * dt, MILLI as int);
    if moved < r {
        (r, if vel >= 0 { vel } else { -vel }, true)
    } else if moved > limit - r {
        (limit - r, if vel >= 0 { -vel } else { vel }, true)
    } else {
        (moved, vel, false)
    }
}

/// `b1` is `b0` after one full linear integration step over `dt`, and
/// `bounced` says whether any axis reflected.
pub open spec fn lin_rel(b0: Ball, dt: int, b1: Ball, bounced: bool) -> bool {
    let (x, vx, bx) = lin_axis(b0.x as int, b0.vx as int, dt, b0.radius as int, b0.screen_w as int);
    let (y, vy, by) = lin_axis(b0.y as int, b0.vy as int, dt, b0.radius as int, b0.screen_h as int);
    &&& b1.x == x
    &&& b1.y == y
    &&& b1.vx == vx
    &&& b1.vy == vy
    &&& bounced == (bx || by)
    &&& b1.screen_w == b0.screen_w
    &&& b1.screen_h == b0.screen_h
    &&& b1.radius == b0.radius
}

/// The orbit angle of `b` after a circular step over `dt`: the angle of its
/// position relative to the screen center, advanced by `ang_spd * dt / 1000`
/// milliradians and reduced to one turn.
pub open spec fn circ_angle(b: Ball, dt: int, ang_spd: int) -> int {
    norm_mrad_spec(
        atan2_spec(b.y - b.screen_h as int / 2, b.x - b.screen_w as int / 2) + tdiv(
            ang_spd * dt,
            MILLI as int,
        ),
    )
}

/// `b1` is `b0` after one circular integration step: the angle of `b0`'s
/// position relative to the screen center, advanced by `ang_spd * dt / 1000`
/// milliradians, and the ball re-placed on the circle of radius `orbit`
/// around the center at the new angle. Velocity is untouched.
pub open spec fn circ_rel(b0: Ball, dt: int, ang_spd: int, orbit: int, b1: Ball) -> bool {
    let a = circ_angle(b0, dt, ang_spd);
    &&& b1.x == b0.screen_w as int / 2 + tdiv(orbit * cos_mrad_spec(a), MILLI as int)
    &&& b1.y == b0.screen_h as int / 2 + tdiv(orbit * sin_mrad_spec(a), MILLI as int)
    &&& b1.vx == b0.vx
    &&& b1.vy == b0.vy
    &&& b1.screen_w == b0.screen_w
    &&& b1.screen_h == b0.screen_h
    &&& b1.radius == b0.radius
}

/// `2 * (w / 40) <= w`: the ball's diameter never exceeds the screen width,
/// so the reflective band `[radius, dim - radius]` is always non-empty.
pub proof fn lemma_radius_room(w: int)
    requires
        0 <= w,
    ensures
        0 <= w / 40,
        2 * (w / 40) <= w,
{
    assert(0 <= w / 40 && 40 * (w / 40) <= w) by (nonlinear_arith)
        requires
            0 <= w,
    ;
}

impl Ball {
    /// Structural well-formedness: valid rectangle, derived radius, bounded
    /// velocity and position.
    pub open spec fn wf(self) -> bool {
        &&& dims_ok(self.screen_w as int, self.screen_h as int)
        &&& self.radius == self.screen_w as int / 40
        &&& -SPEED_MAX <= self.vx <= SPEED_MAX
        &&& -SPEED_MAX <= self.vy <= SPEED_MAX
        &&& -2 * DIM_MAX <= self.x <= 2 * DIM_MAX
        &&& -2 * DIM_MAX <= self.y <= 2 * DIM_MAX
    }

    /// The ball, including its radius, lies inside the screen rectangle.
    pub open spec fn in_bounds(self) -> bool {
        &&& self.radius <= self.x <= self.screen_w - self.radius
        &&& self.radius <= self.y <= self.screen_h - self.radius
    }

    /// The ball keeps an extra margin of `m` milli-pixels from every edge.
    pub open spec fn in_margin(self, m: int) -> bool {
        &&& self.radius + m <= self.x <= self.screen_w - self.radius - m
        &&& self.radius + m <= self.y <= self.screen_h - self.radius - m
    }

    /// A new ball at the screen center with zero velocity.
    pub fn new(screen_w: i64, screen_h: i64) -> (b: Ball)
        requires
            dims_ok(screen_w as int, screen_h as int),
        ensures
            b.screen_w == screen_w,
            b.screen_h == screen_h,
            b.radius == screen_w as int / 40,
            b.x == screen_w as int / 2,
            b.y == screen_h as int / 2,
            b.vx == 0 && b.vy == 0,
            b.wf(),
            b.in_bounds(),
    {
        proof {
            lemma_radius_room(screen_w as int);
            lemma_radius_room(screen_h as int);
        }
        let b = Ball {
            screen_w,
            screen_h,
            radius: screen_w / 40,
            x: screen_w / 2,
            y: screen_h / 2,
            vx: 0,
            vy: 0,
        };
        proof {
            lemma_center_in_bounds(screen_w as int, screen_h as int);
        }
        b
    }

    /// Reinitializes rectangle, radius and position (screen center), zeroing
    /// velocity.
    pub fn reset(&mut self, screen_w: i64, screen_h: i64)
        requires
            dims_ok(screen_w as int, screen_h as int),
        ensures
            final (self).screen_w == screen_w,
            final (self).screen_h == screen_h,
            final (self).radius == screen_w as int / 40,
            final (self).x == screen_w as int / 2,
            final (self).y == screen_h as int / 2,
            final (self).vx == 0 && final (self).vy == 0,
            final (self).wf(),
            final (self).in_bounds(),
    {
        self.screen_w = screen_w;
        self.screen_h = screen_h;
        self.update_radius();
        self.x = self.screen_w / 2;
        self.y = self.screen_h / 2;
        self.vx = 0;
        self.vy = 0;
        proof {
            lemma_center_in_bounds(screen_w as int, screen_h as int);
        }
    }

    /// Reinitializes rectangle and radius, places the ball at a uniformly
    /// random position at least `RESPAWN_MARGIN` inside every edge, and zeroes
    /// the velocity.
    pub fn reset_to_random_pos(&mut self, screen_w: i64, screen_h: i64)
        requires
            room_ok(screen_w as int, screen_h as int),
        ensures
            final (self).screen_w == screen_w,
            final (self).screen_h == screen_h,
            final (self).radius == screen_w as int / 40,
            final (self).radius + RESPAWN_MARGIN <= final (self).x < screen_w - final (
            self).radius - RESPAWN_MARGIN,
            final (self).radius + RESPAWN_MARGIN <= final (self).y < screen_h - final (
            self).radius - RESPAWN_MARGIN,
            final (self).vx == 0 && final (self).vy == 0,
            final (self).wf(),
            final (self).in_bounds(),
            final (self).in_margin(RESPAWN_MARGIN as int),
    {
        proof {
            lemma_radius_room(screen_w as int);
            lemma_radius_room(screen_h as int);
        }
        self.screen_w = screen_w;
        self.screen_h = screen_h;
        self.update_radius();
        let r = self.radius;
        self.x = rand_range(r + RESPAWN_MARGIN, self.screen_w - r - RESPAWN_MARGIN);
        self.y = rand_range(r + RESPAWN_MARGIN, self.screen_h - r - RESPAWN_MARGIN);
        self.vx = 0;
        self.vy = 0;
    }

    /// Recomputes the derived radius from the current screen width.
    pub fn update_radius(&mut self)
        requires
            0 <= old(self).screen_w,
        ensures
            final (self).radius == old(self).screen_w as int / 40,
            *final (self) == (Ball { radius: final (self).radius, ..*old(self) }),
    {
        proof {
            lemma_radius_room(self.screen_w as int);
        }
        self.radius = self.screen_w / 40;
    }

    /// Rescales the position proportionally to the change of each axis,
    /// recomputes the radius, and clamps the position back inside the screen.
    pub fn update_screen_size(&mut self, screen_w: i64, screen_h: i64)
        requires
            old(self).wf(),
            dims_ok(screen_w as int, screen_h as int),
        ensures
            final (self).screen_w == screen_w,
            final (self).screen_h == screen_h,
            final (self).radius == screen_w as int / 40,
            final (self).vx == old(self).vx && final (self).vy == old(self).vy,
            final (self).x == clamp_spec(
                tdiv(old(self).x * screen_w, old(self).screen_w as int),
                final (self).radius as int,
                screen_w - final (self).radius,
            ),
            final (self).y == clamp_spec(
                tdiv(old(self).y * screen_h, old(self).screen_h as int),
                final (self).radius as int,
                screen_h - final (self).radius,
            ),
            final (self).wf(),
            final (self).in_bounds(),
    {
        proof {
            lemma_radius_room(screen_w as int);
        }
        let old_w = self.screen_w;
        let old_h = self.screen_h;
        proof {
            assert(-2 * DIM_MAX * DIM_MAX <= self.x * screen_w <= 2 * DIM_MAX * DIM_MAX && -2
                * DIM_MAX * DIM_MAX <= self.y * screen_h <= 2 * DIM_MAX * DIM_MAX)
                by (nonlinear_arith)
                requires
                    -2 * DIM_MAX <= self.x <= 2 * DIM_MAX,
                    -2 * DIM_MAX <= self.y <= 2 * DIM_MAX,
                    0 <= screen_w <= DIM_MAX,
                    0 <= screen_h <= DIM_MAX,
            ;
        }
        self.screen_w = screen_w;
        self.screen_h = screen_h;
        self.update_radius();
        let r = self.radius;
        let sx = tdiv_i64(self.x * screen_w, old_w);
        let sy = tdiv_i64(self.y * screen_h, old_h);
        self.x = clamp(sx, r, screen_w - r);
        self.y = clamp(sy, r, screen_h - r);
    }

    /// Sets the velocity to magnitude `speed` along the supplied direction if
    /// it is non-degenerate; a missing or zero-length direction falls back to
    /// a uniformly random one, so a nonzero `speed` never strands the ball
    /// with a zero velocity.
    pub fn set_speed(&mut self, speed: i64, direction: Option<(i64, i64)>)
        requires
            old(self).wf(),
            0 <= speed <= SPEED_MAX,
            direction matches Some(d) ==> -DIR_ABS_MAX <= d.0 <= DIR_ABS_MAX && -DIR_ABS_MAX <= d.1
                <= DIR_ABS_MAX,
        ensures
            *final (self) == (Ball { vx: final (self).vx, vy: final (self).vy, ..*old(self) }),
            -speed <= final (self).vx <= speed,
            -speed <= final (self).vy <= speed,
            direction matches Some(d) ==> ((d.0 != 0 || d.1 != 0) ==> vel_along(
                speed as int,
                d.0 as int,
                d.1 as int,
                final (self).vx as int,
                final (self).vy as int,
            )) && (d.0 == 0 && d.1 == 0 ==> vel_random_dir(
                speed as int,
                final (self).vx as int,
                final (self).vy as int,
            )),
            direction is None ==> vel_random_dir(
                speed as int,
                final (self).vx as int,
                final (self).vy as int,
            ),
            MILLI <= speed ==> (final (self).vx != 0 || final (self).vy != 0),
            final (self).wf(),
    {
        match direction {
            Some(d) => {
                let (dx, dy) = d;
                if dx != 0 || dy != 0 {
                    proof {
                        assert(0 <= dx as int * dx <= DIR_ABS_MAX * DIR_ABS_MAX && 0 <= dy as int
                            * dy <= DIR_ABS_MAX * DIR_ABS_MAX && 1 <= dx as int * dx + dy as int
                            * dy) by (nonlinear_arith)
                            requires
                                -DIR_ABS_MAX <= dx <= DIR_ABS_MAX,
                                -DIR_ABS_MAX <= dy <= DIR_ABS_MAX,
                                dx != 0 || dy != 0,
                        ;
                    }
                    let n = dx * dx + dy * dy;
                    let m = isqrt(n);
                    proof {
                        assert(m >= 1) by (nonlinear_arith)
                            requires
                                0 <= m,
                                1 <= n,
                                n < (m as int + 1) * (m as int + 1),
                        ;
                        assert(-(m as int) <= dx <= m && -(m as int) <= dy <= m)
                            by (nonlinear_arith)
                            requires
                                dx as int * dx <= n as int,
                                dy as int * dy <= n as int,
                                n < (m as int + 1) * (m as int + 1),
                                0 <= m,
                        ;
                        assert(-(speed as int * m) <= dx * speed <= speed as int * m && -(
                        speed as int * m) <= dy * speed <= speed as int * m) by (nonlinear_arith)
                            requires
                                -(m as int) <= dx <= m,
                                -(m as int) <= dy <= m,
                                0 <= speed,
                        ;
                        lemma_tdiv_bound(dx as int * speed, m as int, speed as int);
                        lemma_tdiv_bound(dy as int * speed, m as int, speed as int);
                        assert(-(DIR_ABS_MAX * SPEED_MAX) <= dx as int * speed <= DIR_ABS_MAX
                            * SPEED_MAX && -(DIR_ABS_MAX * SPEED_MAX) <= dy as int * speed
                            <= DIR_ABS_MAX * SPEED_MAX) by (nonlinear_arith)
                            requires
                                -DIR_ABS_MAX <= dx <= DIR_ABS_MAX,
                                -DIR_ABS_MAX <= dy <= DIR_ABS_MAX,
                                0 <= speed <= SPEED_MAX,
                        ;
                    }
                    self.vx = tdiv_i64(dx * speed, m);
                    self.vy = tdiv_i64(dy * speed, m);
                    proof {
                        if speed >= MILLI {
                            if dx as int * dx >= dy as int * dy {
                                assert(dx != 0) by (nonlinear_arith)
                                    requires
                                        dy as int * dy <= dx as int * dx,
                                        1 <= dx as int * dx + dy as int * dy,
                                ;
                                assert(dx as int * speed >= m || dx as int * speed <= -(m as int))
                                    by (nonlinear_arith)
                                    requires
                                        dy as int * dy <= dx as int * dx,
                                        m as int * m <= dx as int * dx + dy as int * dy,
                                        0 <= m,
                                        dx != 0,
                                        2 <= speed,
                                ;
                                lemma_tdiv_nonzero(dx as int * speed, m as int);
                            } else {
                                assert(dy != 0) by (nonlinear_arith)
                                    requires
                                        dx as int * dx <= dy as int * dy,
                                        1 <= dx as int * dx + dy as int * dy,
                                ;
                                assert(dy as int * speed >= m || dy as int * speed <= -(m as int))
                                    by (nonlinear_arith)
                                    requires
                                        dx as int * dx <= dy as int * dy,
                                        m as int * m <= dx as int * dx + dy as int * dy,
                                        0 <= m,
                                        dy != 0,
                                        2 <= speed,
                                ;
                                lemma_tdiv_nonzero(dy as int * speed, m as int);
                            }
                        }
                    }
                } else {
                    let v = sample_velocity(speed);
                    self.vx = v.0;
                    self.vy = v.1;
                }
            },
            None => {
                let v = sample_velocity(speed);
                self.vx = v.0;
                self.vy = v.1;
            },
        }
    }

    /// Computes the current angle of the position relative to the screen
    /// center, advances it by `ang_spd * dt / 1000`, and re-places the ball on
    /// the circle of radius `orbit_radius` around the center at the new angle.
    /// Velocity is untouched: circular motion is a position-only override.
    pub fn update_circular_with_radius(&mut self, dt: i64, ang_spd: i64, orbit_radius: i64)
        requires
            old(self).wf(),
            old(self).in_bounds(),
            0 <= dt <= DT_MAX,
            -ANG_SPD_ABS_MAX <= ang_spd <= ANG_SPD_ABS_MAX,
            0 <= orbit_radius <= DIM_MAX,
        ensures
            circ_rel(*old(self), dt as int, ang_spd as int, orbit_radius as int, *final (self)),
            final (self).screen_w / 2 - orbit_radius <= final (self).x <= final (self).screen_w / 2
                + orbit_radius,
            final (self).screen_h / 2 - orbit_radius <= final (self).y <= final (self).screen_h / 2
                + orbit_radius,
            final (self).wf(),
    {
        proof {
            assert(-(1_000_000_000i64 * MILLI) <= ang_spd * dt <= 1_000_000_000i64 * MILLI)
                by (nonlinear_arith)
                requires
                    0 <= dt <= DT_MAX,
                    -ANG_SPD_ABS_MAX <= ang_spd <= ANG_SPD_ABS_MAX,
            ;
            lemma_tdiv_bound(ang_spd as int * dt, MILLI as int, 1_000_000_000);
        }
        let delta = tdiv_i64(ang_spd * dt, MILLI);
        let dx = self.x - self.screen_w / 2;
        let dy = self.y - self.screen_h / 2;
        let a0 = atan2_mrad(dy, dx);
        let a = norm_mrad(a0 + delta);
        let c = cos_mrad(a);
        let s = sin_mrad(a);
        proof {
            assert(-(orbit_radius as int * MILLI) <= orbit_radius * c <= orbit_radius as int
                * MILLI && -(orbit_radius as int * MILLI) <= orbit_radius * s <= orbit_radius as int
                * MILLI) by (nonlinear_arith)
                requires
                    0 <= orbit_radius,
                    -MILLI <= c <= MILLI,
                    -MILLI <= s <= MILLI,
            ;
            lemma_tdiv_bound(orbit_radius as int * c, MILLI as int, orbit_radius as int);
            lemma_tdiv_bound(orbit_radius as int * s, MILLI as int, orbit_radius as int);
        }
        self.x = self.screen_w / 2 + tdiv_i64(orbit_radius * c, MILLI);
        self.y = self.screen_h / 2 + tdiv_i64(orbit_radius * s, MILLI);
    }

    /// Circular integration with the implicit orbit radius
    /// `(screen_h - 2 * radius) / 2`: the tallest orbit that keeps the ball
    /// inside the screen vertically.
    pub fn update_circular(&mut self, dt: i64, ang_spd: i64)
        requires
            old(self).wf(),
            old(self).in_bounds(),
            0 <= dt <= DT_MAX,
            -ANG_SPD_ABS_MAX <= ang_spd <= ANG_SPD_ABS_MAX,
            2 * old(self).radius <= old(self).screen_h,
        ensures
            circ_rel(
                *old(self),
                dt as int,
                ang_spd as int,
                (old(self).screen_h - 2 * old(self).radius) as int / 2,
                *final (self),
            ),
            final (self).wf(),
    {
        let orbit = (self.screen_h - 2 * self.radius) / 2;
        self.update_circular_with_radius(dt, ang_spd, orbit);
    }

    /// Linear integration with post-hoc boundary reflection: advances the
    /// position by `velocity * dt / 1000` and, on each axis independently,
    /// clamps to the boundary offset and reflects the velocity outward if the
    /// moved position left `[radius, dim - radius]`. Returns whether any axis
    /// bounced. The error variant is never produced; it is the caller-facing
    /// report of a physics step that could not be completed.
    pub fn update(&mut self, dt: i64) -> (res: Result<bool, crate::error::CoreError>)
        requires
            old(self).wf(),
            0 <= dt <= DT_MAX,
        ensures
            res is Ok,
            lin_rel(*old(self), dt as int, *final (self), res->Ok_0),
            final (self).wf(),
            final (self).in_bounds(),
    {
        proof {
            lemma_radius_room(self.screen_w as int);
            lemma_radius_room(self.screen_h as int);
            assert(-(SPEED_MAX as int * DT_MAX) <= self.vx * dt <= SPEED_MAX as int * DT_MAX && -(
            SPEED_MAX as int * DT_MAX) <= self.vy * dt <= SPEED_MAX as int * DT_MAX)
                by (nonlinear_arith)
                requires
                    -SPEED_MAX <= self.vx <= SPEED_MAX,
                    -SPEED_MAX <= self.vy <= SPEED_MAX,
                    0 <= dt <= DT_MAX,
            ;
            lemma_tdiv_bound(self.vx as int * dt, MILLI as int, SPEED_MAX as int * DT_MAX / 1000);
            lemma_tdiv_bound(self.vy as int * dt, MILLI as int, SPEED_MAX as int * DT_MAX / 1000);
        }
        let mut bounced = false;
        self.x = self.x + tdiv_i64(self.vx * dt, MILLI);
        self.y = self.y + tdiv_i64(self.vy * dt, MILLI);
        let r = self.radius;

        if self.x < r {
            self.x = r;
            self.vx = if self.vx >= 0 {
                self.vx
            } else {
                -self.vx
            };
            bounced = true;
        } else if self.x > self.screen_w - r {
            self.x = self.screen_w - r;
            self.vx = if self.vx >= 0 {
                -self.vx
            } else {
                self.vx
            };
            bounced = true;
        }

        if self.y < r {
            self.y = r;
            self.vy = if self.vy >= 0 {
                self.vy
            } else {
                -self.vy
            };
            bounced = true;
        } else if self.y > self.screen_h - r {
            self.y = self.screen_h - r;
            self.vy = if self.vy >= 0 {
                -self.vy
            } else {
                self.vy
            };
            bounced = true;
        }

        Ok(bounced)
    }
}

/// Linear integration is idempotent under zero velocity: an in-bounds ball
/// with `vx == vy == 0` is a fixed point of `lin_rel` for every `dt`, with no
/// bounce reported — so repeated ticks never move it.
pub proof fn lemma_linear_idle(b: Ball, dt: int)
    requires
        b.wf(),
        b.in_bounds(),
        b.vx == 0,
        b.vy == 0,
    ensures
        lin_rel(b, dt, b, false),
{
    assert(tdiv(0 * dt, MILLI as int) == 0);
}

/// Resizing is a round trip up to sub-pixel error: scaling a coordinate to a
/// new width and back, as `update_screen_size` does when neither clamp
/// triggers, returns within `w0 / w1 + 1` milli-pixels of where it started.
pub proof fn lemma_resize_round_trip(x: int, w0: int, w1: int)
    requires
        0 <= x <= w0,
        1 <= w0,
        1 <= w1,
    ensures
        0 <= x - tdiv(tdiv(x * w1, w0) * w0, w1) <= w0 / w1 + 1,
{
    let q = x * w1 / w0;
    let z = q * w0 / w1;
    assert(0 <= x * w1) by (nonlinear_arith)
        requires
            0 <= x,
            0 <= w1,
    ;
    assert(q * w0 <= x * w1 < (q + 1) * w0 && 0 <= q) by (nonlinear_arith)
        requires
            0 <= x * w1,
            1 <= w0,
            q == x * w1 / w0,
    ;
    assert(0 <= q * w0) by (nonlinear_arith)
        requires
            0 <= q,
            0 <= w0,
    ;
    assert(z * w1 <= q * w0 < (z + 1) * w1 && 0 <= z) by (nonlinear_arith)
        requires
            0 <= q * w0,
            1 <= w1,
            z == q * w0 / w1,
    ;
    assert(z <= x) by (nonlinear_arith)
        requires
            z * w1 <= q * w0,
            q * w0 <= x * w1,
            1 <= w1,
    ;
    let d = w0 / w1;
    assert(d * w1 <= w0 < (d + 1) * w1 && 0 <= d) by (nonlinear_arith)
        requires
            1 <= w0,
            1 <= w1,
            d == w0 / w1,
    ;
    assert(x - z <= d + 1) by (nonlinear_arith)
        requires
            (z + 1) * w1 > q * w0,
            (q + 1) * w0 > x * w1,
            w0 < (d + 1) * w1,
            1 <= w1,
            1 <= w0,
            0 <= z,
            0 <= q,
            0 <= x,
            0 <= d,
    ;
    assert(tdiv(x * w1, w0) == q);
    assert(tdiv(q * w0, w1) == z);
}

/// The screen center, offset by at most the radius on each side, lies inside
/// the reflective band.
pub proof fn lemma_center_in_bounds(w: int, h: int)
    requires
        0 <= w,
        0 <= h,
        2 * (w / 40) <= h,
    ensures
        w / 40 <= w / 2 <= w - w / 40,
        w / 40 <= h / 2 <= h - w / 40,
{
    assert(w / 40 <= w / 2 <= w - w / 40) by (nonlinear_arith)
        requires
            0 <= w,
    ;
    assert(w / 40 <= h / 2 <= h - w / 40) by (nonlinear_arith)
        requires
            0 <= w,
            0 <= h,
            2 * (w / 40) <= h,
    ;
}

/// The velocity of magnitude `speed` along a uniformly random direction of
/// the full circle.
fn sample_velocity(speed: i64) -> (v: (i64, i64))
    requires
        0 <= speed <= SPEED_MAX,
    ensures
        vel_random_dir(speed as int, v.0 as int, v.1 as int),
        -speed <= v.0 <= speed,
        -speed <= v.1 <= speed,
        MILLI <= speed ==> (v.0 != 0 || v.1 != 0),
{
    let a = rand_range(0, TWO_PI_MRAD);
    let c = cos_mrad(a);
    let s = sin_mrad(a);
    proof {
        assert(-(speed as int * MILLI) <= speed * c <= speed as int * MILLI && -(speed as int
            * MILLI) <= speed * s <= speed as int * MILLI) by (nonlinear_arith)
            requires
                0 <= speed,
                -MILLI <= c <= MILLI,
                -MILLI <= s <= MILLI,
        ;
        lemma_tdiv_bound(speed as int * c, MILLI as int, speed as int);
        lemma_tdiv_bound(speed as int * s, MILLI as int, speed as int);
    }
    let vx = tdiv_i64(speed * c, MILLI);
    let vy = tdiv_i64(speed * s, MILLI);
    proof {
        assert(vel_at_angle(speed as int, a as int, vx as int, vy as int));
        if speed >= MILLI {
            crate::trig::lemma_sin_or_cos_unit(a as int);
            assert((1 <= s || s <= -1 ==> MILLI <= speed * s || speed * s <= -(MILLI as int)) && (1
                <= c || c <= -1 ==> MILLI <= speed * c || speed * c <= -(MILLI as int)))
                by (nonlinear_arith)
                requires
                    MILLI <= speed,
            ;
            if s >= 1 || s <= -1 {
                lemma_tdiv_nonzero(speed as int * s, MILLI as int);
            } else {
                lemma_tdiv_nonzero(speed as int * c, MILLI as int);
            }
        }
    }
    (vx, vy)
}

} // verus!
