//! Core of a visual-tracking exercise: a ball follows one of five time-boxed
//! motion choreographies ("stages") inside a rectangular screen, bouncing off
//! the edges, while the surrounding application observes discrete events
//! (bounce, stage change, game over).
//!
//! All quantities are fixed-point integers so that every computation can be
//! verified exactly:
//! - lengths and positions are thousandths of a pixel (milli-pixels),
//! - times are milliseconds,
//! - angles are thousandths of a radian (milliradians),
//! - speeds are milli-pixels per second, angular speeds milliradians per second.
use vstd::prelude::*;

pub mod audio;
pub mod audio_config;
pub mod ball;
pub mod config;
pub mod error;
pub mod events;
pub mod game_state;
pub mod num;
mod rng;
pub mod stage_config;
pub mod trig;
pub mod visual_config;

pub use audio_config::{AudioParams, BGMParams, SFXParams};
pub use ball::Ball;
pub use config::UserConfig;
pub use error::CoreError;
pub use events::{GameEvent, GameUpdate};
pub use game_state::{stage_direction, stage_speed, GameState};
pub use stage_config::{Axis, MotionType, StageConfig};
pub use visual_config::{BackgroundStyle, BallStyle, Color, Theme, UIStyle};

verus! {

/// One fixed-point unit: a thousandth of the base unit.
pub const MILLI: i64 = 1000;

/// The half circle in milliradians (pi rounded to the scale).
pub const PI_MRAD: i64 = 3142;

/// The quarter circle in milliradians.
pub const HALF_PI_MRAD: i64 = 1571;

/// The full circle in milliradians, kept at exactly twice `PI_MRAD` so that
/// quadrant reductions stay symmetric.
pub const TWO_PI_MRAD: i64 = 6284;

/// Smallest accepted screen dimension: 10 pixels.
pub const DIM_MIN: i64 = 10_000;

/// Largest accepted screen dimension: one million pixels.
pub const DIM_MAX: i64 = 1_000_000_000;

/// Largest accepted speed: 4000 pixels per second, comfortably above every
/// stage's base speed.
pub const SPEED_MAX: i64 = 4_000_000;

/// Largest accepted magnitude of a supplied direction component.
pub const DIR_ABS_MAX: i64 = 16_000_000;

/// Largest accepted time delta for one tick: 10000 seconds.
pub const DT_MAX: i64 = 10_000_000;

/// Largest accepted angular speed: 100 radians per second.
pub const ANG_SPD_ABS_MAX: i64 = 100_000;

/// How far (50 pixels) a randomized respawn keeps the ball's edge away from
/// every screen edge.
pub const RESPAWN_MARGIN: i64 = 50_000;

} // verus!
