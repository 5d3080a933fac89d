//! Deferred destruction of native graphics objects.
//!
//! A native object must not be destroyed while a previously submitted
//! command buffer that references it might still execute on the GPU. Instead
//! of destroying eagerly, callers enqueue a [`DeletionTask`] describing the
//! destructive call, and the queue is flushed — drained front to back — only
//! at a point where a fence proves the deferred work safe to issue. The
//! tasks come out of [`DeletionQueue::flush`] in first-in-first-out order,
//! and the unverified driver executes each exactly once against the device
//! and allocator handles it owns.

use vstd::prelude::*;

use crate::handles::{AllocationHandle, BufferHandle, ImageHandle, ImageViewHandle};

verus! {

/// One deferred destructive call, as a closed set of shapes: some need only
/// the device handle, some only the allocator handle, one needs both. Each
/// variant carries exactly the data its destroy call takes.
#[derive(Debug, Clone, PartialEq, Eq)]
pub enum DeletionTask {
    /// Destroy an image view; a device-only call.
    DestroyImageView { image_view: ImageViewHandle },
    /// Destroy a command pool; a device-only call.
    DestroyCommandPool { pool: u64 },
    /// Destroy a buffer and free its backing allocation; an allocator call.
    DestroyBuffer { buffer: BufferHandle, allocation: AllocationHandle },
    /// Destroy an image and free its backing allocation; needs the device
    /// and the allocator together.
    DestroyImage { image: ImageHandle, allocation: AllocationHandle },
    /// Destroy every pool a descriptor allocator created; a device-only
    /// call per pool, used at teardown for the allocators themselves.
    DestroyDescriptorPools { pools: Vec<u64> },
}

impl DeletionTask {
    /// Whether executing the task requires the device handle.
    pub open spec fn needs_device(self) -> bool {
        match self {
            DeletionTask::DestroyImageView { .. } => true,
            DeletionTask::DestroyCommandPool { .. } => true,
            DeletionTask::DestroyBuffer { .. } => false,
            DeletionTask::DestroyImage { .. } => true,
            DeletionTask::DestroyDescriptorPools { .. } => true,
        }
    }

    /// Whether executing the task requires the allocator handle.
    pub open spec fn needs_allocator(self) -> bool {
        match self {
            DeletionTask::DestroyBuffer { .. } => true,
            DeletionTask::DestroyImage { .. } => true,
            _ => false,
        }
    }

    /// Whether executing the task destroys the native object handle `h`.
    pub open spec fn frees_native_handle(self, h: u64) -> bool {
        match self {
            DeletionTask::DestroyImageView { image_view } => image_view == h,
            DeletionTask::DestroyCommandPool { pool } => pool == h,
            DeletionTask::DestroyBuffer { buffer, .. } => buffer == h,
            DeletionTask::DestroyImage { image, .. } => image == h,
            DeletionTask::DestroyDescriptorPools { pools } => pools@.contains(h),
        }
    }

    /// Whether executing the task frees the memory allocation `a`.
    pub open spec fn frees_allocation(self, a: AllocationHandle) -> bool {
        match self {
            DeletionTask::DestroyBuffer { allocation, .. } => allocation == a,
            DeletionTask::DestroyImage { allocation, .. } => allocation == a,
            _ => false,
        }
    }
}

/// A queue of deferred destructive calls, drained in FIFO order.
#[derive(Debug, Clone)]
pub struct DeletionQueue {
    tasks: Vec<DeletionTask>,
}

impl View for DeletionQueue {
    type V = Seq<DeletionTask>;

    closed spec fn view(&self) -> Seq<DeletionTask> {
        self.tasks@
    }
}

impl DeletionQueue {
    /// An empty queue.
    pub fn new() -> (r: DeletionQueue)
        ensures
            r@ =~= Seq::<DeletionTask>::empty(),
    {
        DeletionQueue { tasks: Vec::new() }
    }

    /// How many tasks are pending.
    pub fn len(&self) -> (r: usize)
        ensures
            r == self@.len(),
    {
        self.tasks.len()
    }

    /// Defer one destructive call; it will come out after everything
    /// enqueued before it.
    pub fn enqueue(&mut self, task: DeletionTask)
        ensures
            final(self)@ =~= old(self)@.push(task),
    {
        self.tasks.push(task);
    }

    /// Drain the queue: the pending tasks come back in exactly the order
    /// they were enqueued, each exactly once, and the queue is left empty —
    /// so a second flush returns nothing. The caller executes the returned
    /// tasks front to back.
    pub fn flush(&mut self) -> (r: Vec<DeletionTask>)
        ensures
            r@ =~= old(self)@,
            final(self)@ =~= Seq::<DeletionTask>::empty(),
    {
        let mut drained: Vec<DeletionTask> = Vec::new();
        core::mem::swap(&mut drained, &mut self.tasks);
        drained
    }
}

} // verus!
