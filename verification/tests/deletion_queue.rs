use piplup::deletion_queue::{DeletionQueue, DeletionTask};
use piplup::memory::{AllocationUnit, AllocationUnitType};
use piplup::handles::{AllocatedImage, Extent3d, ImageDetails, ImageFormat, VkBuffer};

#[test]
fn flush_is_fifo_and_empties_the_queue() {
    let mut queue = DeletionQueue::new();
    let t1 = DeletionTask::DestroyImageView { image_view: 11 };
    let t2 = DeletionTask::DestroyCommandPool { pool: 22 };
    let t3 = DeletionTask::DestroyBuffer { buffer: 33, allocation: 34 };
    queue.enqueue(t1.clone());
    queue.enqueue(t2.clone());
    queue.enqueue(t3.clone());
    assert_eq!(queue.len(), 3);

    let drained = queue.flush();
    assert_eq!(drained, vec![t1, t2, t3]);
    assert_eq!(queue.len(), 0);

    let again = queue.flush();
    assert!(again.is_empty());
    assert_eq!(queue.len(), 0);
}

/// A tiny leak harness: executing a task marks what it frees; an allocation
/// unit leaks unless both its native handle and its allocation are freed.
fn execute(task: &DeletionTask, freed_handles: &mut Vec<u64>, freed_allocations: &mut Vec<u64>) {
    match task {
        DeletionTask::DestroyImageView { image_view } => freed_handles.push(*image_view),
        DeletionTask::DestroyCommandPool { pool } => freed_handles.push(*pool),
        DeletionTask::DestroyBuffer { buffer, allocation } => {
            freed_handles.push(*buffer);
            freed_allocations.push(*allocation);
        }
        DeletionTask::DestroyImage { image, allocation } => {
            freed_handles.push(*image);
            freed_allocations.push(*allocation);
        }
        DeletionTask::DestroyDescriptorPools { pools } => {
            for pool in pools {
                freed_handles.push(*pool);
            }
        }
    }
}

#[test]
fn buffer_unit_deletion_task_frees_both_halves() {
    let unit = AllocationUnit::new(
        AllocationUnitType::Buffer(VkBuffer { buffer: 7, address: 0x1000 }),
        42,
    );
    let task = unit.deletion_task();
    assert_eq!(task, DeletionTask::DestroyBuffer { buffer: 7, allocation: 42 });

    let mut freed_handles = Vec::new();
    let mut freed_allocations = Vec::new();
    execute(&task, &mut freed_handles, &mut freed_allocations);
    assert_eq!(freed_handles, vec![7], "native handle leaked");
    assert_eq!(freed_allocations, vec![42], "allocation leaked");
}

#[test]
fn image_unit_deletion_task_frees_both_halves() {
    let image = AllocatedImage::new(
        ImageDetails { image: 9, image_view: 10 },
        Extent3d { width: 4, height: 4, depth: 1 },
        ImageFormat::R8G8B8A8Unorm,
    );
    let unit = AllocationUnit::new(AllocationUnitType::Image(image), 77);
    let task = unit.deletion_task();
    assert_eq!(task, DeletionTask::DestroyImage { image: 9, allocation: 77 });

    let mut freed_handles = Vec::new();
    let mut freed_allocations = Vec::new();
    execute(&task, &mut freed_handles, &mut freed_allocations);
    assert_eq!(freed_handles, vec![9]);
    assert_eq!(freed_allocations, vec![77]);
}
