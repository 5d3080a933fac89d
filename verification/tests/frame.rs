use piplup::deletion_queue::DeletionTask;
use piplup::frame::{FrameData, FrameLoop, FramePhase};
use piplup::handles::VkBuffer;
use piplup::memory::{AllocationUnit, AllocationUnitType};
use piplup::renderer::MAX_FRAMES;

fn make_frames(n: u64) -> Vec<FrameData> {
    let mut frames = Vec::new();
    for i in 0..n {
        // Distinct handles per slot: cb, overlay cb, render/swapchain
        // semaphores, fence.
        frames.push(FrameData::new(
            100 + i,
            200 + i,
            300 + i,
            400 + i,
            500 + i,
        ));
    }
    frames
}

#[test]
fn slots_cycle_in_order_with_no_stall() {
    let n = MAX_FRAMES as u64;
    let mut frame_loop = FrameLoop::new(make_frames(n));
    let mut visited_slots = Vec::new();

    for iteration in 0..(3 * n) {
        let slot = frame_loop.frame_idx;
        visited_slots.push(slot);

        let wait = frame_loop.begin_frame();
        // The wait targets the current slot's own fence; the driver's wait
        // returns (a signaled fence, never a timeout in this drive).
        assert_eq!(wait.fence, 500 + slot as u64);
        assert_eq!(wait.timeout, u64::MAX);
        frame_loop.fence_signaled();

        let (tasks, pools_to_reset) = frame_loop.reclaim();
        assert!(tasks.is_empty());
        assert_eq!(pools_to_reset.len(), 1);

        let image = frame_loop.image_acquired(iteration as u32 % 3, false);
        assert!(!image.recreate_swapchain);

        let (cb, overlay_cb) = frame_loop.begin_recording();
        assert_eq!(cb, 100 + slot as u64);
        assert_eq!(overlay_cb, 200 + slot as u64);

        let submit = frame_loop.submit_queue();
        assert_eq!(submit.command_buffers, vec![100 + slot as u64, 200 + slot as u64]);
        assert_eq!(submit.wait_semaphores, vec![400 + slot as u64]);
        assert_eq!(submit.signal_semaphores, vec![300 + slot as u64]);
        assert_eq!(submit.fence, 500 + slot as u64);

        let present = frame_loop.present_queue();
        assert_eq!(present.wait_semaphores, vec![300 + slot as u64]);
        assert_eq!(present.image_indices, vec![iteration as u32 % 3]);

        frame_loop.end_frame();
        assert_eq!(frame_loop.phase, FramePhase::Idle);
    }

    // Slot reuse cycles 0, 1, ..., N-1, 0, 1, ... in order.
    let expected: Vec<usize> = (0..3 * n).map(|i| (i % n) as usize).collect();
    assert_eq!(visited_slots, expected);
}

#[test]
fn fence_wait_is_recorded_strictly_before_flush() {
    // A driver-side double that records the order of the wait and the flush.
    let mut driver_log: Vec<&str> = Vec::new();
    let mut frame_loop = FrameLoop::new(make_frames(2));

    let _wait = frame_loop.begin_frame();
    driver_log.push("wait_fence");
    frame_loop.fence_signaled();
    let _ = frame_loop.reclaim();
    driver_log.push("flush");

    let wait_at = driver_log.iter().position(|e| *e == "wait_fence").unwrap();
    let flush_at = driver_log.iter().position(|e| *e == "flush").unwrap();
    assert!(wait_at < flush_at, "the fence wait must come strictly before the flush");
}

#[test]
fn reclaim_drains_the_slots_deletion_queue_in_order() {
    let mut frame_loop = FrameLoop::new(make_frames(2));
    let t1 = DeletionTask::DestroyBuffer { buffer: 1, allocation: 2 };
    let t2 = DeletionTask::DestroyImageView { image_view: 3 };
    frame_loop.frames[0]
        .frame_resources
        .deletion_queue
        .enqueue(t1.clone());
    frame_loop.frames[0]
        .frame_resources
        .deletion_queue
        .enqueue(t2.clone());

    frame_loop.begin_frame();
    frame_loop.fence_signaled();
    let (tasks, _pools) = frame_loop.reclaim();
    assert_eq!(tasks, vec![t1, t2]);
    assert_eq!(frame_loop.frames[0].frame_resources.deletion_queue.len(), 0);
}

#[test]
fn shutdown_waits_on_every_slot_in_order() {
    let frame_loop = FrameLoop::new(make_frames(3));
    let waits = frame_loop.shutdown_waits();
    assert_eq!(waits.len(), 3);
    for (i, wait) in waits.iter().enumerate() {
        assert_eq!(wait.fence, 500 + i as u64);
        assert_eq!(wait.timeout, u64::MAX);
    }
}

#[test]
fn frame_data_holds_its_slots_handles() {
    let frame = FrameData::new(1, 2, 3, 4, 5);
    assert_eq!(frame.command_buffer, 1);
    assert_eq!(frame.egui_command_buffer, 2);
    assert_eq!(frame.render_semaphore, vec![3]);
    assert_eq!(frame.swapchain_semaphore, vec![4]);
    assert_eq!(frame.render_fence, vec![5]);
    assert_eq!(frame.frame_resources.deletion_queue.len(), 0);
}

#[test]
fn staging_the_scene_buffer_defers_its_destruction_into_the_frame() {
    let mut frame_loop = FrameLoop::new(make_frames(2));
    let unit = AllocationUnit::new(
        AllocationUnitType::Buffer(VkBuffer { buffer: 61, address: 0x2000 }),
        62,
    );
    let (details, writes) = frame_loop.frames[0]
        .frame_resources
        .stage_scene_buffer(unit, 71, 72, 128);
    assert_eq!(details.descriptor_set, vec![71]);
    assert_eq!(details.layout, vec![72]);
    assert_eq!(writes.len(), 1);
    assert_eq!(writes[0].dst_set, 71);

    // The buffer's destruction is deferred into this frame's own queue and
    // comes back only at the slot's reclaim, after the fence observation.
    frame_loop.begin_frame();
    frame_loop.fence_signaled();
    let (tasks, _pools) = frame_loop.reclaim();
    assert_eq!(
        tasks,
        vec![DeletionTask::DestroyBuffer { buffer: 61, allocation: 62 }]
    );
}

#[test]
fn enqueue_destroy_pools_defers_every_live_pool() {
    let mut frame = FrameData::new(1, 2, 3, 4, 5);
    frame.frame_resources.enqueue_destroy_pools();
    let tasks = frame.frame_resources.deletion_queue.flush();
    assert_eq!(tasks.len(), 1);
    match &tasks[0] {
        DeletionTask::DestroyDescriptorPools { pools } => assert_eq!(pools, &vec![0]),
        other => panic!("expected a pool-destruction task, got {:?}", other),
    }
}
