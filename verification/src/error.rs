//! Error taxonomy of the resource subsystem.
//!
//! Low-level allocation failures are not retried: device memory exhaustion
//! and a descriptor-pool failure that survives one retry surface as
//! `ResourceExhausted`; an unexpected failure from a call that is assumed
//! infallible in normal operation (a destroy call, an allocation error other
//! than pool exhaustion) indicates a prior logic bug and surfaces as
//! `InvariantViolation`.

use vstd::prelude::*;

verus! {

/// A fatal condition of the resource subsystem. Neither variant is
/// recoverable at this layer; both propagate to the caller.
#[derive(Clone, Copy, Debug, PartialEq, Eq, Structural)]
pub enum GpuResourceError {
    /// The device ran out of memory, or a descriptor-set allocation failed
    /// again after one retry against a fresh pool.
    ResourceExhausted,
    /// A call assumed infallible failed: evidence of an earlier
    /// use-after-free or double-destroy.
    InvariantViolation,
}

impl GpuResourceError {
    /// A human-readable description of the error.
    pub fn message(&self) -> &'static str {
        match self {
            GpuResourceError::ResourceExhausted => "gpu resource exhausted",
            GpuResourceError::InvariantViolation => "gpu resource invariant violated",
        }
    }
}

/// Error of the UI overlay integration: a texture identifier reached the
/// renderer before it was registered with it.
#[derive(Debug, Clone, PartialEq, Eq)]
pub enum EguiRenderError {
    NotManaged(String),
}

} // verus!
