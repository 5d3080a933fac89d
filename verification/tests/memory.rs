use piplup::handles::{
    Extent3d, ImageFormat, ImageLayout, MemoryUsage, BUFFER_USAGE_SHADER_DEVICE_ADDRESS,
    BUFFER_USAGE_TRANSFER_DST, BUFFER_USAGE_TRANSFER_SRC, BUFFER_USAGE_UNIFORM_BUFFER,
    IMAGE_ASPECT_COLOR, IMAGE_USAGE_SAMPLED, IMAGE_USAGE_TRANSFER_DST, IMAGE_USAGE_TRANSFER_SRC,
    MEMORY_PROPERTY_HOST_COHERENT, MEMORY_PROPERTY_HOST_VISIBLE,
};
use piplup::memory::{HostVisibleMemory, MemoryAllocator, UploadStep};
use piplup::queue::{QueueType, VkQueue};

fn allocator() -> MemoryAllocator {
    MemoryAllocator::new(vec![VkQueue::new(11, 3, QueueType::GRAPHICS_QUEUE)])
}

#[test]
fn host_visible_round_trip_of_256_bytes() {
    // A 256-byte uniform allocation with host-visible + coherent flags: map,
    // write a known pattern, unmap, map again, read back — bytes match
    // exactly, with no GPU-side involvement.
    let alloc = allocator();
    let request = alloc.allocate_single_buffer(
        256,
        BUFFER_USAGE_UNIFORM_BUFFER,
        MemoryUsage::Auto,
        MEMORY_PROPERTY_HOST_VISIBLE | MEMORY_PROPERTY_HOST_COHERENT,
    );
    assert_eq!(request.size, 256);
    assert_eq!(
        request.required_flags,
        MEMORY_PROPERTY_HOST_VISIBLE | MEMORY_PROPERTY_HOST_COHERENT
    );

    let mut memory = HostVisibleMemory::new(256);
    assert_eq!(memory.size(), 256);

    let pattern: Vec<u8> = (0..256u32).map(|i| (i.wrapping_mul(37) % 251) as u8).collect();
    memory.map_memory();
    memory.write_bytes(0, &pattern);
    memory.unmap_memory();

    memory.map_memory();
    let read_back = memory.read_bytes(0, 256);
    memory.unmap_memory();
    assert_eq!(read_back, pattern);
}

#[test]
fn partial_writes_touch_only_their_window() {
    let mut memory = HostVisibleMemory::new(16);
    memory.map_memory();
    memory.write_bytes(4, &[0xAA, 0xBB, 0xCC]);
    let all = memory.read_bytes(0, 16);
    assert_eq!(all[3], 0);
    assert_eq!(&all[4..7], &[0xAA, 0xBB, 0xCC]);
    assert_eq!(all[7], 0);
    memory.unmap_memory();
}

#[test]
fn buffer_upload_plan_destroys_staging_only_after_the_wait() {
    let alloc = allocator();
    let (plan, destination) = alloc.create_buffer_with_mapped_memory(
        64,
        BUFFER_USAGE_UNIFORM_BUFFER,
        MemoryUsage::Auto,
        MEMORY_PROPERTY_HOST_VISIBLE | MEMORY_PROPERTY_HOST_COHERENT,
    );

    assert_eq!(plan.staging.size, 64);
    assert_eq!(
        plan.staging.usage,
        BUFFER_USAGE_TRANSFER_SRC | BUFFER_USAGE_SHADER_DEVICE_ADDRESS
    );
    assert_eq!(destination.size, 64);
    assert_eq!(
        destination.usage,
        BUFFER_USAGE_TRANSFER_DST | BUFFER_USAGE_UNIFORM_BUFFER
    );
    assert_eq!(destination.queue_family_indices, vec![3]);

    assert_eq!(
        plan.steps,
        vec![
            UploadStep::AllocateStaging,
            UploadStep::MapStaging,
            UploadStep::CopyToStaging { bytes: 64 },
            UploadStep::UnmapStaging,
            UploadStep::AllocateDestination,
            UploadStep::CopyBufferToDestination { size: 64 },
            UploadStep::SubmitAndWaitIdle,
            UploadStep::DestroyStaging,
        ]
    );

    // Exactly one staging destruction, and it stands after the blocking wait.
    let destroys: Vec<usize> = plan
        .steps
        .iter()
        .enumerate()
        .filter(|(_, s)| matches!(s, UploadStep::DestroyStaging))
        .map(|(i, _)| i)
        .collect();
    let wait_at = plan
        .steps
        .iter()
        .position(|s| matches!(s, UploadStep::SubmitAndWaitIdle))
        .unwrap();
    assert_eq!(destroys.len(), 1);
    assert!(wait_at < destroys[0]);
}

#[test]
fn image_upload_plan_transitions_around_the_copy() {
    let alloc = allocator();
    let extent = Extent3d { width: 16, height: 16, depth: 1 };
    let (plan, image) = alloc.create_image_with_data(
        extent,
        ImageFormat::R8G8B8A8Unorm,
        IMAGE_USAGE_SAMPLED,
        IMAGE_ASPECT_COLOR,
    );

    // 16 x 16 texels, four bytes each.
    assert_eq!(plan.staging.size, 1024);
    assert_eq!(image.extent, extent);
    assert_eq!(image.format, ImageFormat::R8G8B8A8Unorm);
    assert_eq!(
        image.usage,
        IMAGE_USAGE_SAMPLED | IMAGE_USAGE_TRANSFER_SRC | IMAGE_USAGE_TRANSFER_DST
    );
    assert_eq!(image.initial_layout, ImageLayout::Undefined);
    assert_eq!(image.mip_levels, 1);

    assert_eq!(
        plan.steps,
        vec![
            UploadStep::AllocateStaging,
            UploadStep::MapStaging,
            UploadStep::CopyToStaging { bytes: 1024 },
            UploadStep::UnmapStaging,
            UploadStep::AllocateDestination,
            UploadStep::TransitionToTransferDst,
            UploadStep::CopyBufferToImage { extent },
            UploadStep::TransitionToShaderRead,
            UploadStep::SubmitAndWaitIdle,
            UploadStep::DestroyStaging,
        ]
    );
}

#[test]
fn buffer_declarations_carry_every_queue_family() {
    let alloc = MemoryAllocator::new(vec![
        VkQueue::new(1, 7, QueueType::GRAPHICS_QUEUE),
        VkQueue::new(2, 9, QueueType::PRESENT_QUEUE),
    ]);
    let request = alloc.staging_buffer(32);
    assert_eq!(request.queue_family_indices, vec![7, 9]);
    assert!(request.sharing_exclusive);
    assert!(request.mapped);
    assert_eq!(request.memory_usage, MemoryUsage::Unknown);
}
