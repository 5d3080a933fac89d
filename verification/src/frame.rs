//! The frame ring: per-slot resources and the acquire → record → submit →
//! present cycle that pipelines a bounded number of frames between the CPU
//! and the GPU.
//!
//! Each in-flight frame owns a slot: command buffers, one swapchain-acquired
//! semaphore, one render-complete semaphore, one frame-complete fence, and a
//! per-frame descriptor allocator and deletion queue that are safe to reset
//! exactly when the slot's fence has been observed signaled — that
//! observation proves the GPU finished the slot's previous use.
//!
//! The loop is a state machine: each step emits the request the driver must
//! perform (wait on this fence, submit with these semaphores), and the
//! driver reports the outcome back. A ghost trace of the loop's events is
//! carried along, and well-formedness pins the subsystem's central ordering
//! guarantee to it: a slot's deletion queue is flushed only after the slot's
//! fence wait, never across an intervening submit.

use vstd::prelude::*;

use crate::deletion_queue::{DeletionQueue, DeletionTask};
use crate::descriptors::{
    DescriptorAllocator, DescriptorSetDetails, DescriptorType, PoolSizeRatio,
    WriteDescriptorCommand,
};
use crate::renderer::ImageIndex;

verus! {

/// How many descriptor sets a slot's per-frame allocator starts with.
pub const FRAME_DESCRIPTOR_MAX_SETS: u32 = 16;

/// The per-frame resources that are reclaimed at the top of every reuse of
/// the slot.
#[derive(Debug, Clone)]
pub struct FrameResources {
    pub descriptor_allocator: DescriptorAllocator,
    pub deletion_queue: DeletionQueue,
}

impl FrameResources {
    pub open spec fn wf(self) -> bool {
        &&& self.descriptor_allocator.wf()
        &&& self.descriptor_allocator.idle()
    }

    /// Fresh per-frame resources: an empty deletion queue and a descriptor
    /// allocator sized for uniform-buffer-heavy per-frame sets.
    pub fn new() -> (r: FrameResources)
        ensures
            r.wf(),
            r.deletion_queue@ =~= Seq::<DeletionTask>::empty(),
            r.descriptor_allocator.spec_pool_count() == 1,
    {
        FrameResources {
            descriptor_allocator: DescriptorAllocator::new(
                FRAME_DESCRIPTOR_MAX_SETS,
                vec![PoolSizeRatio::new(DescriptorType::UniformBuffer, 1)],
            ),
            deletion_queue: DeletionQueue::new(),
        }
    }

    /// Stage this frame's scene-data buffer: defer the buffer's destruction
    /// into the frame's own deletion queue — so it is executed only once the
    /// slot's fence has proved the frame's GPU work done — and produce the
    /// details and the one write that bind `size` bytes of it as the frame's
    /// uniform data, against the set the driver allocated.
    pub fn stage_scene_buffer(
        &mut self,
        unit: crate::memory::AllocationUnit,
        set: u64,
        layout: u64,
        size: u64,
    ) -> (r: (DescriptorSetDetails, Vec<WriteDescriptorCommand>))
        requires
            old(self).wf(),
            unit.unit is Buffer,
        ensures
            final(self).wf(),
            final(self).descriptor_allocator == old(self).descriptor_allocator,
            final(self).deletion_queue@ =~= old(self).deletion_queue@.push(
                crate::memory::spec_deletion_task(unit),
            ),
            r.0.descriptor_set@ =~= seq![set],
            r.0.layout@ =~= seq![layout],
            r.1@ =~= seq![
                WriteDescriptorCommand {
                    dst_set: set,
                    dst_binding: 0,
                    d_type: DescriptorType::UniformBuffer,
                    info: crate::descriptors::WriteInfo::Buffer(
                        crate::descriptors::DescriptorBufferInfo {
                            buffer: unit.unit.spec_native_handle(),
                            offset: 0,
                            range: size,
                        },
                    ),
                },
            ],
    {
        let task = unit.deletion_task();
        self.deletion_queue.enqueue(task);
        let buffer = unit.unit.get_buffer();
        DescriptorAllocator::write_buffer_descriptors(
            set,
            layout,
            buffer,
            size,
            DescriptorType::UniformBuffer,
        )
    }

    /// Defer the destruction of every pool the allocator holds: one task
    /// carrying all their ids, for a device-lifetime queue flushed at
    /// teardown.
    pub fn enqueue_destroy_pools(&mut self)
        requires
            old(self).wf(),
        ensures
            final(self).wf(),
            final(self).descriptor_allocator == old(self).descriptor_allocator,
            final(self).deletion_queue@.len() == old(self).deletion_queue@.len() + 1,
            final(self).deletion_queue@.drop_last() =~= old(self).deletion_queue@,
            final(self).deletion_queue@.last() matches DeletionTask::DestroyDescriptorPools {
                pools,
            } && pools@ =~= old(self).descriptor_allocator.ready_pools@.map_values(
                |p: crate::descriptors::DescriptorPoolUnit| p.id,
            ) + old(self).descriptor_allocator.full_pools@.map_values(
                |p: crate::descriptors::DescriptorPoolUnit| p.id,
            ),
    {
        let pools = self.descriptor_allocator.pool_ids();
        self.deletion_queue.enqueue(DeletionTask::DestroyDescriptorPools { pools });
    }
}

/// One slot of the frame ring. Created once at startup and reused for the
/// process lifetime.
#[derive(Debug, Clone)]
pub struct FrameData {
    pub command_buffer: u64,
    pub egui_command_buffer: u64,
    pub render_semaphore: Vec<u64>,
    pub swapchain_semaphore: Vec<u64>,
    pub render_fence: Vec<u64>,
    pub frame_resources: FrameResources,
}

impl FrameData {
    /// Each synchronization list holds exactly the slot's one primitive, and
    /// the per-frame resources are sound.
    pub open spec fn wf(self) -> bool {
        &&& self.render_semaphore@.len() == 1
        &&& self.swapchain_semaphore@.len() == 1
        &&& self.render_fence@.len() == 1
        &&& self.frame_resources.wf()
    }

    /// A slot over the native objects the driver created for it: two command
    /// buffers, two semaphores and a fence (created signaled, so the first
    /// wait passes), plus fresh per-frame resources.
    pub fn new(
        command_buffer: u64,
        egui_command_buffer: u64,
        render_semaphore: u64,
        swapchain_semaphore: u64,
        render_fence: u64,
    ) -> (r: FrameData)
        ensures
            r.wf(),
            r.command_buffer == command_buffer,
            r.egui_command_buffer == egui_command_buffer,
            r.render_semaphore@ =~= seq![render_semaphore],
            r.swapchain_semaphore@ =~= seq![swapchain_semaphore],
            r.render_fence@ =~= seq![render_fence],
            r.frame_resources.deletion_queue@ =~= Seq::<DeletionTask>::empty(),
    {
        FrameData {
            command_buffer,
            egui_command_buffer,
            render_semaphore: vec![render_semaphore],
            swapchain_semaphore: vec![swapchain_semaphore],
            render_fence: vec![render_fence],
            frame_resources: FrameResources::new(),
        }
    }
}

/// One observable event of the frame loop, as the ghost trace records it.
#[derive(Debug, Clone, Copy, PartialEq, Eq, Structural)]
pub enum LoopEvent {
    /// Slot `slot`'s frame-complete fence was observed signaled.
    Wait { slot: usize },
    /// Slot `slot`'s per-frame deletion queue was flushed.
    Flush { slot: usize },
    /// Slot `slot`'s per-frame descriptor pools were reset.
    ResetPools { slot: usize },
    /// A swapchain image was acquired for slot `slot`.
    Acquire { slot: usize, image_index: u32 },
    /// Slot `slot`'s command buffers were submitted, signaling its fence.
    Submit { slot: usize },
    /// Slot `slot`'s frame was presented.
    Present { slot: usize },
}

/// Whether `slot`'s fence has been observed signaled since `slot`'s last
/// submission (and at least once), reading the trace back to front.
pub open spec fn wait_pending(h: Seq<LoopEvent>, slot: usize) -> bool
    decreases h.len(),
{
    if h.len() == 0 {
        false
    } else if h.last() == (LoopEvent::Wait { slot }) {
        true
    } else if h.last() == (LoopEvent::Submit { slot }) {
        false
    } else {
        wait_pending(h.drop_last(), slot)
    }
}

/// Fence-gated reuse, over a whole trace: every flush of a slot's per-frame
/// deletion queue happens at a point where that slot's fence has been
/// observed signaled since the slot's last submission — a wait stands
/// strictly before the flush, with no submit of the slot in between.
pub open spec fn flush_gated(h: Seq<LoopEvent>) -> bool
    decreases h.len(),
{
    if h.len() == 0 {
        true
    } else {
        &&& flush_gated(h.drop_last())
        &&& (h.last() matches LoopEvent::Flush { slot } ==> wait_pending(h.drop_last(), slot))
    }
}

/// What the driver must wait on before a slot may be reused.
#[derive(Debug, Clone, Copy, PartialEq, Eq, Structural)]
pub struct FenceWaitRequest {
    pub fence: u64,
    /// A timeout in nanoseconds; running out is a stall, not a cancellation.
    pub timeout: u64,
}

/// A queue submission: the slot's command buffers, gated on its
/// image-acquired semaphore, signaling its render-complete semaphore and its
/// frame-complete fence.
#[derive(Debug, Clone, PartialEq, Eq)]
pub struct SubmitRequest {
    pub command_buffers: Vec<u64>,
    pub wait_semaphores: Vec<u64>,
    pub signal_semaphores: Vec<u64>,
    pub fence: u64,
}

/// A presentation request, gated on the render-complete semaphore.
#[derive(Debug, Clone, PartialEq, Eq)]
pub struct PresentRequest {
    pub wait_semaphores: Vec<u64>,
    pub image_indices: Vec<u32>,
}

/// Where the current slot stands in its cycle.
#[derive(Debug, Clone, Copy, PartialEq, Eq, Structural)]
pub enum FramePhase {
    /// Nothing of this frame has begun.
    Idle,
    /// The slot's fence was observed signaled; the GPU is done with the
    /// slot's previous use.
    Waited,
    /// The slot's per-frame resources were reclaimed.
    Reclaimed,
    /// A swapchain image is acquired for this frame.
    Acquired,
    /// The slot's command buffers are recorded.
    Recorded,
    /// The frame was submitted to the queue.
    Submitted,
    /// The frame was handed to presentation; only advancing remains.
    Presented,
}

/// The frame loop: drives the slots of the ring in order, one frame at a
/// time, emitting the requests the driver performs.
#[derive(Clone)]
pub struct FrameLoop {
    pub frames: Vec<FrameData>,
    pub frame_idx: usize,
    pub phase: FramePhase,
    pub acquired: Option<ImageIndex>,
    pub history: Ghost<Seq<LoopEvent>>,
}

impl FrameLoop {
    /// The slot count: how many frames are in flight.
    pub open spec fn slots(self) -> int {
        self.frames@.len() as int
    }

    pub open spec fn wf(self) -> bool {
        &&& self.frames@.len() >= 1
        &&& (self.frame_idx as int) < self.slots()
        &&& forall|i: int| 0 <= i < self.slots() ==> (#[trigger] self.frames@[i]).wf()
        &&& (self.phase is Acquired || self.phase is Recorded || self.phase is Submitted
            || self.phase is Presented) ==> self.acquired is Some
        &&& flush_gated(self.history@)
        &&& self.phase is Waited ==> wait_pending(self.history@, self.frame_idx)
    }

    /// A ring over the given slots, starting at slot `0`, idle, with an
    /// empty trace.
    pub fn new(frames: Vec<FrameData>) -> (r: FrameLoop)
        requires
            frames@.len() >= 1,
            forall|i: int| 0 <= i < frames@.len() ==> (#[trigger] frames@[i]).wf(),
        ensures
            r.wf(),
            r.frames@ == frames@,
            r.frame_idx == 0,
            r.phase is Idle,
            r.history@ =~= Seq::<LoopEvent>::empty(),
    {
        FrameLoop {
            frames,
            frame_idx: 0,
            phase: FramePhase::Idle,
            acquired: None,
            history: Ghost(Seq::empty()),
        }
    }

    /// Step 1 — wait: the fence the driver must block on before anything of
    /// the current slot is reused. An infinite timeout is requested; a
    /// driver-chosen bound is equally sound, but running out of it is a
    /// stall to surface, not a cancellation.
    pub fn begin_frame(&self) -> (r: FenceWaitRequest)
        requires
            self.wf(),
            self.phase is Idle,
        ensures
            r.fence == self.frames@[self.frame_idx as int].render_fence@[0],
            r.timeout == u64::MAX,
    {
        FenceWaitRequest { fence: self.frames[self.frame_idx].render_fence[0], timeout: u64::MAX }
    }

    /// The driver observed the current slot's fence signaled: all GPU work
    /// of the slot's previous use is complete, and the fence was reset for
    /// this use.
    pub fn fence_signaled(&mut self)
        requires
            old(self).wf(),
            old(self).phase is Idle,
        ensures
            final(self).wf(),
            final(self).phase is Waited,
            final(self).frames@ == old(self).frames@,
            final(self).frame_idx == old(self).frame_idx,
            final(self).acquired == old(self).acquired,
            final(self).history@ =~= old(self).history@.push(
                LoopEvent::Wait { slot: old(self).frame_idx },
            ),
    {
        let ghost h0 = self.history@;
        self.phase = FramePhase::Waited;
        self.history = Ghost(self.history@.push(LoopEvent::Wait { slot: self.frame_idx }));
        proof {
            assert(self.history@.drop_last() =~= h0);
        }
    }

    /// Step 2 — reclaim: flush the slot's per-frame deletion queue (the
    /// tasks come back in FIFO order for the driver to execute) and reset
    /// its descriptor pools (their ids come back for the native resets).
    /// This demands the fence observation of step 1: it is the only point at
    /// which the slot's resources are provably idle.
    pub fn reclaim(&mut self) -> (r: (Vec<DeletionTask>, Vec<u64>))
        requires
            old(self).wf(),
            old(self).phase is Waited,
        ensures
            final(self).wf(),
            final(self).phase is Reclaimed,
            final(self).frame_idx == old(self).frame_idx,
            final(self).acquired == old(self).acquired,
            final(self).frames@.len() == old(self).frames@.len(),
            forall|i: int|
                0 <= i < old(self).frames@.len() && i != old(self).frame_idx as int ==> final(self).frames@[i] == old(self).frames@[i],
            r.0@ =~= old(self).frames@[old(self).frame_idx as int].frame_resources.deletion_queue@,
            final(self).frames@[old(self).frame_idx as int].frame_resources.deletion_queue@.len() == 0,
            final(self).frames@[old(self).frame_idx as int].command_buffer == old(self).frames@[old(self).frame_idx as int].command_buffer,
            final(self).frames@[old(self).frame_idx as int].egui_command_buffer == old(self).frames@[old(self).frame_idx as int].egui_command_buffer,
            final(self).frames@[old(self).frame_idx as int].render_semaphore@ == old(self).frames@[old(self).frame_idx as int].render_semaphore@,
            final(self).frames@[old(self).frame_idx as int].swapchain_semaphore@ == old(self).frames@[old(self).frame_idx as int].swapchain_semaphore@,
            final(self).frames@[old(self).frame_idx as int].render_fence@ == old(self).frames@[old(self).frame_idx as int].render_fence@,
            r.1@ =~= old(self).frames@[old(self).frame_idx as int].frame_resources.descriptor_allocator.ready_pools@.map_values(
                |p: crate::descriptors::DescriptorPoolUnit| p.id,
            ) + old(self).frames@[old(self).frame_idx as int].frame_resources.descriptor_allocator.full_pools@.map_values(
                |p: crate::descriptors::DescriptorPoolUnit| p.id,
            ),
            final(self).frames@[old(self).frame_idx as int].frame_resources.descriptor_allocator.ready_pools@
                =~= old(self).frames@[old(self).frame_idx as int].frame_resources.descriptor_allocator.ready_pools@
                + old(self).frames@[old(self).frame_idx as int].frame_resources.descriptor_allocator.full_pools@,
            final(self).frames@[old(self).frame_idx as int].frame_resources.descriptor_allocator.full_pools@.len()
                == 0,
            final(self).history@ =~= old(self).history@.push(
                LoopEvent::Flush { slot: old(self).frame_idx },
            ).push(LoopEvent::ResetPools { slot: old(self).frame_idx }),
    {
        let ghost h0 = self.history@;
        let idx = self.frame_idx;
        let tasks = self.frames[idx].frame_resources.deletion_queue.flush();
        let pools = self.frames[idx].frame_resources.descriptor_allocator.reset_descriptors();
        self.phase = FramePhase::Reclaimed;
        self.history = Ghost(
            self.history@.push(LoopEvent::Flush { slot: self.frame_idx }).push(
                LoopEvent::ResetPools { slot: self.frame_idx },
            ),
        );
        proof {
            let h1 = h0.push(LoopEvent::Flush { slot: idx });
            let h2 = h1.push(LoopEvent::ResetPools { slot: idx });
            assert(h1.drop_last() =~= h0);
            assert(wait_pending(h0, idx));
            assert(flush_gated(h1));
            assert(h2.drop_last() =~= h1);
            assert(flush_gated(h2));
            assert(self.history@ == h2);
            assert forall|i: int| 0 <= i < self.frames@.len() implies (
            #[trigger] self.frames@[i]).wf() by {
                if i != idx as int {
                    assert(self.frames@[i] == old(self).frames@[i]);
                }
            }
        }
        (tasks, pools)
    }

    /// Step 3 — acquire: the driver requested the next presentable image,
    /// signaling the slot's image-acquired semaphore, and reports the index
    /// and whether the swapchain was suboptimal or out of date (a signal to
    /// recreate it, not a failure).
    pub fn image_acquired(&mut self, index: u32, recreate_swapchain: bool) -> (r: ImageIndex)
        requires
            old(self).wf(),
            old(self).phase is Reclaimed,
        ensures
            final(self).wf(),
            final(self).phase is Acquired,
            final(self).frames@ == old(self).frames@,
            final(self).frame_idx == old(self).frame_idx,
            r.index == index,
            r.recreate_swapchain == recreate_swapchain,
            final(self).acquired == Some(r),
            final(self).history@ =~= old(self).history@.push(
                LoopEvent::Acquire { slot: old(self).frame_idx, image_index: index },
            ),
    {
        let ghost h0 = self.history@;
        let image_index = ImageIndex::new((index, recreate_swapchain));
        self.acquired = Some(image_index);
        self.phase = FramePhase::Acquired;
        self.history = Ghost(
            self.history@.push(
                LoopEvent::Acquire { slot: self.frame_idx, image_index: index },
            ),
        );
        proof {
            assert(self.history@.drop_last() =~= h0);
        }
        image_index
    }

    /// Step 4 — record: the slot's command buffers, for the driver to reset
    /// and record the frame's rendering and overlay commands into.
    pub fn begin_recording(&mut self) -> (r: (u64, u64))
        requires
            old(self).wf(),
            old(self).phase is Acquired,
        ensures
            final(self).wf(),
            final(self).phase is Recorded,
            final(self).frames@ == old(self).frames@,
            final(self).frame_idx == old(self).frame_idx,
            final(self).acquired == old(self).acquired,
            final(self).history@ == old(self).history@,
            r.0 == old(self).frames@[old(self).frame_idx as int].command_buffer,
            r.1 == old(self).frames@[old(self).frame_idx as int].egui_command_buffer,
    {
        self.phase = FramePhase::Recorded;
        (self.frames[self.frame_idx].command_buffer, self.frames[self.frame_idx].egui_command_buffer)
    }

    /// Step 5 — submit: both of the slot's command buffers, waiting on the
    /// image-acquired semaphore, signaling the render-complete semaphore and
    /// the slot's frame-complete fence.
    pub fn submit_queue(&mut self) -> (r: SubmitRequest)
        requires
            old(self).wf(),
            old(self).phase is Recorded,
        ensures
            final(self).wf(),
            final(self).phase is Submitted,
            final(self).frames@ == old(self).frames@,
            final(self).frame_idx == old(self).frame_idx,
            final(self).acquired == old(self).acquired,
            r.command_buffers@ =~= seq![
                old(self).frames@[old(self).frame_idx as int].command_buffer,
                old(self).frames@[old(self).frame_idx as int].egui_command_buffer,
            ],
            r.wait_semaphores@ == old(self).frames@[old(self).frame_idx as int].swapchain_semaphore@,
            r.signal_semaphores@ == old(self).frames@[old(self).frame_idx as int].render_semaphore@,
            r.fence == old(self).frames@[old(self).frame_idx as int].render_fence@[0],
            final(self).history@ =~= old(self).history@.push(
                LoopEvent::Submit { slot: old(self).frame_idx },
            ),
    {
        let ghost h0 = self.history@;
        let idx = self.frame_idx;
        let mut command_buffers: Vec<u64> = Vec::new();
        command_buffers.push(self.frames[idx].command_buffer);
        command_buffers.push(self.frames[idx].egui_command_buffer);
        let request = SubmitRequest {
            command_buffers,
            wait_semaphores: self.frames[idx].swapchain_semaphore.clone(),
            signal_semaphores: self.frames[idx].render_semaphore.clone(),
            fence: self.frames[idx].render_fence[0],
        };
        self.phase = FramePhase::Submitted;
        self.history = Ghost(self.history@.push(LoopEvent::Submit { slot: self.frame_idx }));
        proof {
            assert(self.history@.drop_last() =~= h0);
        }
        request
    }

    /// Step 6 — present: gate presentation of the acquired image on the
    /// render-complete semaphore.
    pub fn present_queue(&mut self) -> (r: PresentRequest)
        requires
            old(self).wf(),
            old(self).phase is Submitted,
        ensures
            final(self).wf(),
            final(self).phase is Presented,
            final(self).frames@ == old(self).frames@,
            final(self).frame_idx == old(self).frame_idx,
            final(self).acquired == old(self).acquired,
            r.wait_semaphores@ == old(self).frames@[old(self).frame_idx as int].render_semaphore@,
            old(self).acquired matches Some(img) ==> r.image_indices@ =~= seq![img.index],
            final(self).history@ =~= old(self).history@.push(
                LoopEvent::Present { slot: old(self).frame_idx },
            ),
    {
        let ghost h0 = self.history@;
        let idx = self.frame_idx;
        let image = match &self.acquired {
            Some(img) => img.index,
            None => 0,
        };
        let mut image_indices: Vec<u32> = Vec::new();
        image_indices.push(image);
        let request = PresentRequest {
            wait_semaphores: self.frames[idx].render_semaphore.clone(),
            image_indices,
        };
        self.phase = FramePhase::Presented;
        self.history = Ghost(self.history@.push(LoopEvent::Present { slot: self.frame_idx }));
        proof {
            assert(self.history@.drop_last() =~= h0);
        }
        request
    }

    /// Shutdown: the loop has no terminal state in normal operation, but at
    /// application exit every slot must be drained — its fence waited on —
    /// before any device-lifetime resource is destroyed. One wait request
    /// per slot, in slot order, each against that slot's own fence.
    pub fn shutdown_waits(&self) -> (r: Vec<FenceWaitRequest>)
        requires
            self.wf(),
        ensures
            r@.len() == self.frames@.len(),
            forall|i: int|
                0 <= i < self.frames@.len() ==> #[trigger] r@[i] == (FenceWaitRequest {
                    fence: self.frames@[i].render_fence@[0],
                    timeout: u64::MAX,
                }),
    {
        let mut waits: Vec<FenceWaitRequest> = Vec::new();
        let mut k: usize = 0;
        while k < self.frames.len()
            invariant
                self.wf(),
                k <= self.frames@.len(),
                waits@.len() == k,
                forall|i: int|
                    0 <= i < k ==> #[trigger] waits@[i] == (FenceWaitRequest {
                        fence: self.frames@[i].render_fence@[0],
                        timeout: u64::MAX,
                    }),
            decreases self.frames@.len() - k,
        {
            waits.push(
                FenceWaitRequest { fence: self.frames[k].render_fence[0], timeout: u64::MAX },
            );
            k = k + 1;
        }
        waits
    }

    /// Step 7 — advance: the next frame takes the next slot of the ring, in
    /// order, wrapping after the last.
    pub fn end_frame(&mut self)
        requires
            old(self).wf(),
            old(self).phase is Presented,
        ensures
            final(self).wf(),
            final(self).phase is Idle,
            final(self).frames@ == old(self).frames@,
            final(self).acquired is None,
            final(self).frame_idx as int == (old(self).frame_idx as int + 1) % old(self).slots(),
            final(self).history@ == old(self).history@,
    {
        self.acquired = None;
        let slot_count = self.frames.len();
        self.frame_idx = (self.frame_idx + 1) % slot_count;
        self.phase = FramePhase::Idle;
    }
}

/// Fence-gated reuse: in every reachable state of the frame loop, the trace
/// of loop events satisfies [`flush_gated`] — each flush of a slot's
/// per-frame deletion queue stands strictly after an observation of that
/// slot's fence, with no submission of that slot in between.
pub proof fn lemma_fence_gated_reuse(fl: FrameLoop)
    requires
        fl.wf(),
    ensures
        flush_gated(fl.history@),
{
}

/// The existential reading of [`flush_gated`]: wherever a flush of `slot`
/// stands in the trace, a wait of `slot` stands strictly before it, and no
/// submit of `slot` stands between the two.
pub proof fn lemma_wait_strictly_before_flush(h: Seq<LoopEvent>, k: int, slot: usize)
    requires
        flush_gated(h),
        0 <= k < h.len(),
        h[k] == (LoopEvent::Flush { slot }),
    ensures
        exists|j: int|
            0 <= j < k && h[j] == (LoopEvent::Wait { slot }) && (forall|m: int|
                j < m < k ==> h[m] != (LoopEvent::Submit { slot })),
    decreases h.len(),
{
    if k == h.len() - 1 {
        assert(wait_pending(h.drop_last(), slot));
        lemma_wait_pending_witness(h.drop_last(), slot);
        let j = choose|j: int|
            0 <= j < h.drop_last().len() && h.drop_last()[j] == (LoopEvent::Wait { slot }) && (
            forall|m: int|
                j < m < h.drop_last().len() ==> h.drop_last()[m] != (LoopEvent::Submit { slot }));
        assert(h[j] == (LoopEvent::Wait { slot }));
        assert forall|m: int| j < m < k implies h[m] != (LoopEvent::Submit { slot }) by {
            assert(h.drop_last()[m] == h[m]);
        }
        assert(0 <= j < k && h[j] == (LoopEvent::Wait { slot }) && (forall|m: int|
            j < m < k ==> h[m] != (LoopEvent::Submit { slot })));
    } else {
        assert(flush_gated(h.drop_last()));
        assert(h.drop_last()[k] == h[k]);
        lemma_wait_strictly_before_flush(h.drop_last(), k, slot);
        let j = choose|j: int|
            0 <= j < k && h.drop_last()[j] == (LoopEvent::Wait { slot }) && (forall|m: int|
                j < m < k ==> h.drop_last()[m] != (LoopEvent::Submit { slot }));
        assert(h[j] == (LoopEvent::Wait { slot }));
        assert forall|m: int| j < m < k implies h[m] != (LoopEvent::Submit { slot }) by {
            assert(h.drop_last()[m] == h[m]);
        }
        assert(0 <= j < k && h[j] == (LoopEvent::Wait { slot }) && (forall|m: int|
            j < m < k ==> h[m] != (LoopEvent::Submit { slot })));
    }
}

/// From the recursive reading of "a wait is pending" to its witness: the
/// wait stands in the trace, after every submit of the slot.
proof fn lemma_wait_pending_witness(h: Seq<LoopEvent>, slot: usize)
    requires
        wait_pending(h, slot),
    ensures
        exists|j: int|
            0 <= j < h.len() && h[j] == (LoopEvent::Wait { slot }) && (forall|m: int|
                j < m < h.len() ==> h[m] != (LoopEvent::Submit { slot })),
    decreases h.len(),
{
    if h.last() == (LoopEvent::Wait { slot }) {
        let j = h.len() - 1;
        assert(h[j] == (LoopEvent::Wait { slot }) && (forall|m: int|
            j < m < h.len() ==> h[m] != (LoopEvent::Submit { slot })));
    } else {
        assert(h.last() != (LoopEvent::Submit { slot }));
        assert(wait_pending(h.drop_last(), slot));
        lemma_wait_pending_witness(h.drop_last(), slot);
        let j = choose|j: int|
            0 <= j < h.drop_last().len() && h.drop_last()[j] == (LoopEvent::Wait { slot }) && (
            forall|m: int|
                j < m < h.drop_last().len() ==> h.drop_last()[m] != (LoopEvent::Submit { slot }));
        assert(h[j] == (LoopEvent::Wait { slot }));
        assert forall|m: int| j < m < h.len() implies h[m] != (LoopEvent::Submit { slot }) by {
            if m < h.len() - 1 {
                assert(h.drop_last()[m] == h[m]);
            } else {
                assert(h[m] == h.last());
            }
        }
        assert(0 <= j < h.len() && h[j] == (LoopEvent::Wait { slot }) && (forall|m: int|
            j < m < h.len() ==> h[m] != (LoopEvent::Submit { slot })));
    }
}

} // verus!
