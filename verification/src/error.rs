//! The library's error type.
//!
//! A tick reports a physics computation it could not complete as a typed
//! error instead of producing garbage state; the contracts prove that under
//! the documented invariants this never happens, so the variants are a
//! defensive surface for callers, not an expected path.
use vstd::prelude::*;

verus! {

/// A failure surfaced by the simulation core.
#[derive(Debug, Clone)]
pub enum CoreError {
    /// A physics computation could not be completed.
    Physics(String),
    /// A configuration value could not be used.
    Config(String),
    /// A stage number outside the valid range was supplied.
    InvalidStage(i32),
    /// A state transition that the machine does not allow.
    InvalidTransition,
}

} // verus!
