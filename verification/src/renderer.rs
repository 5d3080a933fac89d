//! Renderer-facing helper types. The frame-pacing state machine itself is in
//! [`crate::frame`].

use vstd::prelude::*;

verus! {

/// How many frame slots are pipelined between the CPU and the GPU.
pub const MAX_FRAMES: usize = 2;

/// Packing a normalized four-component value into one 32-bit word, eight
/// bits per component. Implementations live with the vector types of the
/// math layer.
pub trait PackUnorm {
    fn pack_unorm4x8(&self) -> u32;
}

/// Marker for scene-graph nodes the renderer can draw. The scene layer is a
/// collaborator of this core; its node types implement this.
pub trait RenderNode {

}

/// The result of acquiring a swapchain image: the image's index, and whether
/// the acquire reported the swapchain suboptimal or out of date, in which
/// case the swapchain needs recreation (a signal, not a failure).
#[derive(Debug, Clone, Copy, PartialEq, Eq, Structural)]
pub struct ImageIndex {
    pub index: u32,
    pub recreate_swapchain: bool,
}

impl ImageIndex {
    pub fn new(input: (u32, bool)) -> (r: Self)
        ensures
            r.index == input.0,
            r.recreate_swapchain == input.1,
    {
        ImageIndex { index: input.0, recreate_swapchain: input.1 }
    }
}

} // verus!
