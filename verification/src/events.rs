//! The discrete observations one tick can produce, and the envelope that
//! carries them back to the host.
use vstd::prelude::*;

verus! {

/// A discrete event observed during one tick. Ephemeral: it exists only inside
/// the `GameUpdate` of the tick that produced it.
#[derive(Debug, Clone, Copy, PartialEq, Eq, Structural)]
pub enum GameEvent {
    /// The ball reflected off a screen edge.
    BallBounced,
    /// The session moved from stage `from` to stage `to`.
    StageChanged { from: i32, to: i32 },
    /// A stage ran its full course.
    StageCompleted { stage: i32 },
    /// The final stage ended; the session is over until an explicit reset.
    GameOver,
}

/// What one tick hands back: the events of that tick, in the order they
/// occurred, and the elapsed time (milliseconds) within the current stage.
#[derive(Debug, Clone)]
pub struct GameUpdate {
    pub events: Vec<GameEvent>,
    pub time_elapsed: i64,
}

} // verus!
