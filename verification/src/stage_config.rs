//! A declarative description of one stage's motion: base speed, seed-angle
//! range, and the kind of kinematics it drives.
use vstd::prelude::*;

verus! {

/// The axis a linear choreography emphasizes.
#[derive(Debug, Clone, Copy, PartialEq, Eq, Structural)]
pub enum Axis {
    Horizontal,
    Vertical,
    Diagonal,
}

/// The kind of motion a stage runs.
#[derive(Debug, Clone, Copy, PartialEq, Eq, Structural)]
pub enum MotionType {
    Linear { primary_axis: Axis },
    /// Angular speed in milliradians per second.
    Circular { angular_speed: i64 },
}

/// One stage's tuning: base speed (milli-pixels per second), the range its
/// seed direction is sampled from (milliradians), and its motion kind.
#[derive(Debug, Clone, Copy, PartialEq, Eq)]
pub struct StageConfig {
    pub speed: i64,
    pub angle_range: (i64, i64),
    pub motion_type: MotionType,
}

impl Default for StageConfig {
    /// The stage 1 tuning: 1000 pixels per second, 10 to 20 degrees,
    /// horizontal linear motion.
    fn default() -> (c: StageConfig)
        ensures
            c == (StageConfig {
                speed: 1_000_000,
                angle_range: (crate::game_state::ANGLE15_LO_MRAD, crate::game_state::ANGLE15_HI_MRAD),
                motion_type: MotionType::Linear { primary_axis: Axis::Horizontal },
            }),
    {
        StageConfig {
            speed: 1_000_000,
            angle_range: (crate::game_state::ANGLE15_LO_MRAD, crate::game_state::ANGLE15_HI_MRAD),
            motion_type: MotionType::Linear { primary_axis: Axis::Horizontal },
        }
    }
}

} // verus!
