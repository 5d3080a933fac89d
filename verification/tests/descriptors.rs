use piplup::descriptors::{
    AllocOutcome, AllocProgress, DescriptorAllocator, DescriptorLayoutBuilder, DescriptorType,
    DescriptorWriter, PoolSizeRatio, WriteInfo,
};
use piplup::error::GpuResourceError;
use piplup::handles::{ImageLayout, VkBuffer, SHADER_STAGE_FRAGMENT, SHADER_STAGE_VERTEX};

fn ratios() -> Vec<PoolSizeRatio> {
    vec![
        PoolSizeRatio::new(DescriptorType::CombinedImageSampler, 1),
        PoolSizeRatio::new(DescriptorType::UniformBuffer, 2),
    ]
}

#[test]
fn pools_grow_geometrically_on_exhaustion() {
    let mut allocator = DescriptorAllocator::new(10, ratios());

    // First allocation exhausts the initial pool of capacity 10; the pool
    // minted for the retry has capacity 15 (half again as large).
    let attempt = allocator.begin_allocate();
    assert_eq!(attempt.pool.capacity, 10);
    assert!(attempt.create_request.is_none());
    let progress = allocator.finish_allocate(AllocOutcome::OutOfPoolMemory);
    let first_grown = match progress {
        AllocProgress::Retry { pool, create_request } => {
            let request = create_request.expect("a fresh pool must be created");
            assert_eq!(request.max_sets, 15);
            assert_eq!(request.pool_sizes.len(), 2);
            assert_eq!(request.pool_sizes[0].descriptor_count, 15);
            assert_eq!(request.pool_sizes[1].descriptor_count, 30);
            pool
        }
        other => panic!("expected a retry, got {:?}", other),
    };
    assert_eq!(first_grown.capacity, 15);
    assert!(matches!(
        allocator.finish_allocate(AllocOutcome::Success),
        AllocProgress::Done
    ));

    // The pool of capacity 15 is the only ready one; exhausting it mints a
    // pool of capacity 22 (1.5 times 15, truncated).
    let attempt = allocator.begin_allocate();
    assert_eq!(attempt.pool.capacity, 15);
    let progress = allocator.finish_allocate(AllocOutcome::FragmentedPool);
    match progress {
        AllocProgress::Retry { pool, create_request } => {
            assert_eq!(pool.capacity, 22);
            assert_eq!(create_request.expect("fresh pool").max_sets, 22);
        }
        other => panic!("expected a retry, got {:?}", other),
    }
    assert!(matches!(
        allocator.finish_allocate(AllocOutcome::Success),
        AllocProgress::Done
    ));
}

#[test]
fn exhausting_a_one_set_pool_grows_the_pool_count() {
    let mut allocator =
        DescriptorAllocator::new(1, vec![PoolSizeRatio::new(DescriptorType::UniformBuffer, 1)]);
    assert_eq!(allocator.pool_count(), 1);

    // First set fits in the only pool.
    let attempt = allocator.begin_allocate();
    assert_eq!(attempt.pool.id, 0);
    assert!(matches!(
        allocator.finish_allocate(AllocOutcome::Success),
        AllocProgress::Done
    ));
    assert_eq!(allocator.pool_count(), 1);

    // The second set exhausts it; the allocation succeeds only after a pool
    // growth, observable as the pool count going from 1 to 2.
    let attempt = allocator.begin_allocate();
    assert_eq!(attempt.pool.id, 0);
    let progress = allocator.finish_allocate(AllocOutcome::OutOfPoolMemory);
    match progress {
        AllocProgress::Retry { pool, create_request } => {
            assert_eq!(pool.id, 1);
            assert!(create_request.is_some());
        }
        other => panic!("expected a retry, got {:?}", other),
    }
    assert_eq!(allocator.pool_count(), 2);
    assert!(matches!(
        allocator.finish_allocate(AllocOutcome::Success),
        AllocProgress::Done
    ));
    assert_eq!(allocator.pool_count(), 2);
}

#[test]
fn ready_and_full_stay_exclusive_and_cover_every_pool() {
    let mut allocator = DescriptorAllocator::new(4, ratios());

    // Drive a few allocations, some exhausting pools.
    for round in 0..4u32 {
        allocator.begin_allocate();
        let outcome = if round % 2 == 0 {
            AllocOutcome::OutOfPoolMemory
        } else {
            AllocOutcome::Success
        };
        match allocator.finish_allocate(outcome) {
            AllocProgress::Retry { .. } => {
                assert!(matches!(
                    allocator.finish_allocate(AllocOutcome::Success),
                    AllocProgress::Done
                ));
            }
            AllocProgress::Done => {}
            AllocProgress::Failed { error } => panic!("unexpected failure: {:?}", error),
        }
    }

    let ready: Vec<u64> = allocator.ready_pools.iter().map(|p| p.id).collect();
    let full: Vec<u64> = allocator.full_pools.iter().map(|p| p.id).collect();
    for id in &ready {
        assert!(!full.contains(id), "pool {} is both ready and full", id);
    }
    let mut union: Vec<u64> = ready.iter().chain(full.iter()).copied().collect();
    union.sort();
    let expected: Vec<u64> = (0..allocator.pool_count()).collect();
    assert_eq!(union, expected, "ready and full must cover every pool created");
}

#[test]
fn reset_merges_full_back_into_ready() {
    let mut allocator = DescriptorAllocator::new(2, ratios());
    allocator.begin_allocate();
    match allocator.finish_allocate(AllocOutcome::OutOfPoolMemory) {
        AllocProgress::Retry { .. } => {
            allocator.finish_allocate(AllocOutcome::Success);
        }
        other => panic!("expected a retry, got {:?}", other),
    }
    assert_eq!(allocator.full_pools.len(), 1);
    assert_eq!(allocator.ready_pools.len(), 1);

    let reset_ids = allocator.reset_descriptors();
    assert_eq!(reset_ids.len(), 2);
    assert!(allocator.full_pools.is_empty());
    assert_eq!(allocator.ready_pools.len(), 2);
    assert_eq!(allocator.pool_count(), 2);
}

#[test]
fn destroy_pools_returns_every_pool_and_empties_the_allocator() {
    let mut allocator = DescriptorAllocator::new(3, ratios());
    allocator.begin_allocate();
    match allocator.finish_allocate(AllocOutcome::OutOfPoolMemory) {
        AllocProgress::Retry { .. } => {
            allocator.finish_allocate(AllocOutcome::Success);
        }
        other => panic!("expected a retry, got {:?}", other),
    }
    let destroyed = allocator.destroy_pools();
    assert_eq!(destroyed.len(), 2);
    assert!(allocator.ready_pools.is_empty());
    assert!(allocator.full_pools.is_empty());
    assert_eq!(allocator.pool_count(), 0);
}

#[test]
fn second_exhaustion_is_resource_exhausted() {
    let mut allocator =
        DescriptorAllocator::new(1, vec![PoolSizeRatio::new(DescriptorType::UniformBuffer, 1)]);
    allocator.begin_allocate();
    match allocator.finish_allocate(AllocOutcome::OutOfPoolMemory) {
        AllocProgress::Retry { .. } => {}
        other => panic!("expected a retry, got {:?}", other),
    }
    match allocator.finish_allocate(AllocOutcome::OutOfPoolMemory) {
        AllocProgress::Failed { error } => assert_eq!(error, GpuResourceError::ResourceExhausted),
        other => panic!("expected failure after the retry, got {:?}", other),
    }
    // Both pools are filed as full; bookkeeping still covers them.
    assert_eq!(allocator.full_pools.len(), 2);
    assert!(allocator.ready_pools.is_empty());
}

#[test]
fn unexpected_device_error_is_invariant_violation_and_never_retried() {
    let mut allocator = DescriptorAllocator::new(2, ratios());
    allocator.begin_allocate();
    match allocator.finish_allocate(AllocOutcome::OtherError) {
        AllocProgress::Failed { error } => {
            assert_eq!(error, GpuResourceError::InvariantViolation)
        }
        other => panic!("expected failure, got {:?}", other),
    }
    // The pool was not exhausted, so it returns to the ready list.
    assert_eq!(allocator.ready_pools.len(), 1);
    assert!(allocator.full_pools.is_empty());
}

#[test]
fn writer_resolves_image_writes_before_buffer_writes_in_staging_order() {
    let mut writer = DescriptorWriter::new();
    writer.write_image(
        0,
        501,
        Some(601),
        ImageLayout::ShaderReadOnlyOptimal,
        DescriptorType::CombinedImageSampler,
    );
    writer.write_buffer(
        1,
        VkBuffer { buffer: 701, address: 0 },
        128,
        16,
        DescriptorType::UniformBuffer,
    );
    writer.write_image(2, 502, None, ImageLayout::General, DescriptorType::StorageImage);

    let writes = writer.update_set(900);
    assert_eq!(writes.len(), 3);

    assert_eq!(writes[0].dst_set, 900);
    assert_eq!(writes[0].dst_binding, 0);
    assert_eq!(writes[0].d_type, DescriptorType::CombinedImageSampler);
    match &writes[0].info {
        WriteInfo::Image(info) => {
            assert_eq!(info.image_view, 501);
            assert_eq!(info.sampler, Some(601));
            assert_eq!(info.image_layout, ImageLayout::ShaderReadOnlyOptimal);
        }
        other => panic!("expected an image write, got {:?}", other),
    }

    assert_eq!(writes[1].dst_binding, 2);
    match &writes[1].info {
        WriteInfo::Image(info) => {
            assert_eq!(info.image_view, 502);
            assert_eq!(info.sampler, None);
        }
        other => panic!("expected an image write, got {:?}", other),
    }

    assert_eq!(writes[2].dst_binding, 1);
    match &writes[2].info {
        WriteInfo::Buffer(info) => {
            assert_eq!(info.buffer, 701);
            assert_eq!(info.offset, 16);
            assert_eq!(info.range, 128);
        }
        other => panic!("expected a buffer write, got {:?}", other),
    }

    writer.clear();
    let empty = writer.update_set(900);
    assert!(empty.is_empty());
}

#[test]
fn one_call_write_paths_produce_the_single_binding_write() {
    let layout_request =
        DescriptorAllocator::single_binding_layout(DescriptorType::UniformBuffer, SHADER_STAGE_VERTEX);
    assert_eq!(layout_request.bindings.len(), 1);
    assert_eq!(layout_request.bindings[0].binding, 0);
    assert_eq!(layout_request.bindings[0].descriptor_count, 1);
    assert_eq!(layout_request.bindings[0].stage_flags, SHADER_STAGE_VERTEX);

    let (details, writes) = DescriptorAllocator::write_buffer_descriptors(
        901,
        902,
        VkBuffer { buffer: 903, address: 0 },
        256,
        DescriptorType::UniformBuffer,
    );
    assert_eq!(details.descriptor_set, vec![901]);
    assert_eq!(details.layout, vec![902]);
    assert_eq!(writes.len(), 1);
    assert_eq!(writes[0].dst_set, 901);
    assert_eq!(writes[0].dst_binding, 0);
    match &writes[0].info {
        WriteInfo::Buffer(info) => {
            assert_eq!(info.buffer, 903);
            assert_eq!(info.offset, 0);
            assert_eq!(info.range, 256);
        }
        other => panic!("expected a buffer write, got {:?}", other),
    }

    let (details, writes) = DescriptorAllocator::write_image_descriptors(
        911,
        912,
        913,
        ImageLayout::ShaderReadOnlyOptimal,
        DescriptorType::CombinedImageSampler,
        Some(914),
    );
    assert_eq!(details.descriptor_set, vec![911]);
    assert_eq!(details.layout, vec![912]);
    assert_eq!(writes.len(), 1);
    match &writes[0].info {
        WriteInfo::Image(info) => {
            assert_eq!(info.image_view, 913);
            assert_eq!(info.sampler, Some(914));
        }
        other => panic!("expected an image write, got {:?}", other),
    }
}

#[test]
fn layout_builder_folds_stages_into_every_binding() {
    let mut builder = DescriptorLayoutBuilder::new();
    builder.add_binding(0, DescriptorType::UniformBuffer, SHADER_STAGE_VERTEX);
    builder.add_binding(1, DescriptorType::CombinedImageSampler, 0);
    let request = builder.build(SHADER_STAGE_FRAGMENT, 0);

    assert_eq!(request.flags, 0);
    assert_eq!(request.bindings.len(), 2);
    assert_eq!(request.bindings[0].binding, 0);
    assert_eq!(
        request.bindings[0].stage_flags,
        SHADER_STAGE_VERTEX | SHADER_STAGE_FRAGMENT
    );
    assert_eq!(request.bindings[0].descriptor_count, 1);
    assert_eq!(request.bindings[1].stage_flags, SHADER_STAGE_FRAGMENT);

    builder.clear();
    assert!(builder.bindings.is_empty());
}
