//! The device queues the subsystem submits to.

use vstd::prelude::*;

verus! {

/// The role a queue was retrieved for.
#[allow(non_camel_case_types)]
#[derive(Debug, Clone, Copy, PartialEq, Eq, Structural)]
pub enum QueueType {
    GRAPHICS_QUEUE,
    PRESENT_QUEUE,
}

/// A device queue as the verified layer sees it: its native handle, the
/// family it was created from, and the role it serves. The family index is
/// what buffer-sharing declarations and ownership transitions consume.
#[derive(Debug, Clone, Copy, PartialEq, Eq, Structural)]
pub struct VkQueue {
    pub queue: u64,
    pub queue_family_index: u32,
    pub queue_type: QueueType,
}

impl VkQueue {
    pub fn new(queue: u64, queue_family_index: u32, queue_type: QueueType) -> (r: VkQueue)
        ensures
            r == (VkQueue { queue, queue_family_index, queue_type }),
    {
        VkQueue { queue, queue_family_index, queue_type }
    }
}

} // verus!
