//! Queue-family selection state. Walking the physical device's queue
//! families is a native query; what the engine decides from it — whether a
//! device offers both a graphics family and a presentation-capable family —
//! is plain logic and lives here.

use vstd::prelude::*;

verus! {

/// The queue families found on a physical device, if any: the index of a
/// graphics-capable family and the index of a presentation-capable family.
#[derive(Debug, Clone, Copy, PartialEq, Eq, Structural)]
pub struct QueueFamilyIndices {
    pub graphics_q_idx: Option<u32>,
    pub presentation_q_idx: Option<u32>,
}

impl Default for QueueFamilyIndices {
    fn default() -> (r: Self)
        ensures
            r.graphics_q_idx is None,
            r.presentation_q_idx is None,
    {
        QueueFamilyIndices { graphics_q_idx: None, presentation_q_idx: None }
    }
}

impl QueueFamilyIndices {
    /// A device is usable only when both families were found.
    pub fn is_complete(&self) -> (r: bool)
        ensures
            r == (self.graphics_q_idx is Some && self.presentation_q_idx is Some),
    {
        self.graphics_q_idx.is_some() && self.presentation_q_idx.is_some()
    }
}

} // verus!
