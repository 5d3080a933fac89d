//! GPU memory allocation: buffer and image creation requests, staged
//! host-to-device upload, and the pairing of every allocation with exactly
//! one destruction.
//!
//! The allocator decides what to create and in which order to move data; the
//! native sub-allocator calls themselves are performed by the unverified
//! driver from the requests built here. Every successful allocation yields
//! an [`AllocationUnit`] pairing the native object handle with its memory
//! allocation handle one-to-one — losing the pairing leaks GPU memory — and
//! [`AllocationUnit::deletion_task`] is the one task that frees both.

use vstd::prelude::*;

use crate::deletion_queue::DeletionTask;
use crate::handles::{
    AllocatedImage, AllocationHandle, Extent3d, ImageDetails, ImageFormat, ImageLayout,
    MemoryUsage, VkBuffer, BUFFER_USAGE_SHADER_DEVICE_ADDRESS, BUFFER_USAGE_TRANSFER_DST,
    BUFFER_USAGE_TRANSFER_SRC, IMAGE_USAGE_TRANSFER_DST, IMAGE_USAGE_TRANSFER_SRC,
    MEMORY_PROPERTY_DEVICE_LOCAL, MEMORY_PROPERTY_HOST_COHERENT, MEMORY_PROPERTY_HOST_VISIBLE,
};
use crate::queue::VkQueue;

verus! {

/// What one allocation produced: a buffer with its device address, or an
/// image with its view, extent and format.
#[derive(Debug, Clone, Copy, PartialEq, Eq, Structural)]
pub enum AllocationUnitType {
    Buffer(VkBuffer),
    Image(AllocatedImage),
}

impl AllocationUnitType {
    /// The native handle whose destruction must be paired with freeing the
    /// unit's memory allocation.
    pub open spec fn spec_native_handle(self) -> u64 {
        match self {
            AllocationUnitType::Buffer(b) => b.buffer,
            AllocationUnitType::Image(i) => i.image_details.image,
        }
    }

    /// The buffer of a buffer unit.
    pub fn get_buffer(&self) -> (r: VkBuffer)
        requires
            self is Buffer,
        ensures
            self == AllocationUnitType::Buffer(r),
    {
        match self {
            AllocationUnitType::Buffer(b) => *b,
            AllocationUnitType::Image(_) => VkBuffer { buffer: 0, address: 0 },
        }
    }

    /// The image of an image unit.
    pub fn get_image(&self) -> (r: AllocatedImage)
        requires
            self is Image,
        ensures
            self == AllocationUnitType::Image(r),
    {
        match self {
            AllocationUnitType::Image(i) => *i,
            AllocationUnitType::Buffer(_) => AllocatedImage {
                image_details: ImageDetails { image: 0, image_view: 0 },
                extent: Extent3d { width: 0, height: 0, depth: 0 },
                image_format: ImageFormat::R8G8B8A8Unorm,
            },
        }
    }
}

/// A live allocation: the created object and the memory allocation backing
/// it, which must be destroyed together, exactly once.
#[derive(Debug, Clone, Copy, PartialEq, Eq, Structural)]
pub struct AllocationUnit {
    pub unit: AllocationUnitType,
    pub allocation: AllocationHandle,
}

/// The deletion task that frees `u`: the buffer task for a buffer, the image
/// task for an image, each carrying the unit's allocation.
pub open spec fn spec_deletion_task(u: AllocationUnit) -> DeletionTask {
    match u.unit {
        AllocationUnitType::Buffer(b) => DeletionTask::DestroyBuffer {
            buffer: b.buffer,
            allocation: u.allocation,
        },
        AllocationUnitType::Image(i) => DeletionTask::DestroyImage {
            image: i.image_details.image,
            allocation: u.allocation,
        },
    }
}

impl AllocationUnit {
    pub fn new(unit: AllocationUnitType, allocation: AllocationHandle) -> (r: AllocationUnit)
        ensures
            r == (AllocationUnit { unit, allocation }),
    {
        AllocationUnit { unit, allocation }
    }

    /// The one deletion task that frees this unit: it destroys the unit's
    /// native handle and frees the unit's memory allocation, and nothing
    /// else. Route it into a deletion queue, or for a short-lived staging
    /// buffer execute it synchronously once the copy consuming the buffer
    /// has completed.
    pub fn deletion_task(&self) -> (r: DeletionTask)
        ensures
            r == spec_deletion_task(*self),
            r.frees_native_handle(self.unit.spec_native_handle()),
            r.frees_allocation(self.allocation),
    {
        match &self.unit {
            AllocationUnitType::Buffer(b) => DeletionTask::DestroyBuffer {
                buffer: b.buffer,
                allocation: self.allocation,
            },
            AllocationUnitType::Image(i) => DeletionTask::DestroyImage {
                image: i.image_details.image,
                allocation: self.allocation,
            },
        }
    }
}

/// The pairing invariant: the deletion task of an allocation unit frees
/// exactly the unit's native handle and exactly the unit's memory
/// allocation — no other handle and no other allocation. One unit, one task,
/// both halves freed.
pub proof fn lemma_allocation_unit_pairing(u: AllocationUnit)
    ensures
        spec_deletion_task(u).frees_native_handle(u.unit.spec_native_handle()),
        spec_deletion_task(u).frees_allocation(u.allocation),
        forall|h: u64|
            spec_deletion_task(u).frees_native_handle(h) <==> h == u.unit.spec_native_handle(),
        forall|a: AllocationHandle|
            spec_deletion_task(u).frees_allocation(a) <==> a == u.allocation,
{
}

/// Everything the driver needs to create one buffer and its backing
/// allocation, and to query its device address.
#[derive(Debug, Clone, PartialEq, Eq)]
pub struct BufferCreateRequest {
    pub size: u64,
    pub usage: u32,
    /// The buffer is owned by one queue family at a time.
    pub sharing_exclusive: bool,
    pub queue_family_indices: Vec<u32>,
    pub memory_usage: MemoryUsage,
    pub required_flags: u32,
    /// The allocation is created persistently mapped.
    pub mapped: bool,
}

/// Everything the driver needs to create one image, its backing allocation,
/// and its view.
#[derive(Debug, Clone, Copy, PartialEq, Eq, Structural)]
pub struct ImageCreateRequest {
    pub extent: Extent3d,
    pub format: ImageFormat,
    pub usage: u32,
    pub aspect_flags: u32,
    pub initial_layout: ImageLayout,
    pub mip_levels: u32,
    pub memory_usage: MemoryUsage,
    pub required_flags: u32,
}

/// One step of a staged upload, in the order the driver must perform them.
#[derive(Debug, Clone, Copy, PartialEq, Eq, Structural)]
pub enum UploadStep {
    /// Create the staging buffer (host-visible, transfer source).
    AllocateStaging,
    /// Map the staging allocation.
    MapStaging,
    /// Copy the payload into the mapped staging memory.
    CopyToStaging { bytes: u64 },
    /// Unmap the staging allocation.
    UnmapStaging,
    /// Create the destination buffer or image.
    AllocateDestination,
    /// Record a transition of the destination image to transfer-destination
    /// layout.
    TransitionToTransferDst,
    /// Record the staging-to-destination buffer copy.
    CopyBufferToDestination { size: u64 },
    /// Record the staging-to-image copy.
    CopyBufferToImage { extent: Extent3d },
    /// Record a transition of the destination image to its shader-read
    /// layout.
    TransitionToShaderRead,
    /// Submit the recorded commands and block until the copying queue is
    /// idle.
    SubmitAndWaitIdle,
    /// Destroy the staging buffer — safe only here, after the wait proved
    /// the copy complete.
    DestroyStaging,
}

/// A staged upload: what to create and the exact order of the moves. The
/// staging buffer is destroyed synchronously as the last step, after the
/// blocking wait; the destination outlives the plan and is returned to the
/// caller, who routes it into a deletion queue.
#[derive(Debug, Clone, PartialEq, Eq)]
pub struct UploadPlan {
    pub staging: BufferCreateRequest,
    pub steps: Vec<UploadStep>,
}

/// Wraps the GPU memory sub-allocator: buffer and image creation, staged
/// upload, device-address retrieval. The queues are those the created
/// buffers will be shared with (their family indices go into every buffer
/// declaration); the first queue performs the upload copies.
#[derive(Debug, Clone, PartialEq, Eq)]
pub struct MemoryAllocator {
    pub queues: Vec<VkQueue>,
}

/// The family indices of `queues`, in order.
pub open spec fn spec_family_indices(queues: Seq<VkQueue>) -> Seq<u32> {
    queues.map_values(|q: VkQueue| q.queue_family_index)
}

impl MemoryAllocator {
    pub fn new(queues: Vec<VkQueue>) -> (r: MemoryAllocator)
        ensures
            r.queues@ == queues@,
    {
        MemoryAllocator { queues }
    }

    /// The family indices the created buffers are declared against.
    fn queue_family_indices(&self) -> (r: Vec<u32>)
        ensures
            r@ =~= spec_family_indices(self.queues@),
    {
        let mut indices: Vec<u32> = Vec::new();
        let mut k: usize = 0;
        while k < self.queues.len()
            invariant
                k <= self.queues@.len(),
                indices@ =~= spec_family_indices(self.queues@.subrange(0, k as int)),
            decreases self.queues@.len() - k,
        {
            indices.push(self.queues[k].queue_family_index);
            proof {
                assert(spec_family_indices(self.queues@.subrange(0, k + 1 as int))
                    =~= spec_family_indices(self.queues@.subrange(0, k as int)).push(
                    self.queues@[k as int].queue_family_index,
                ));
            }
            k = k + 1;
        }
        proof {
            assert(self.queues@.subrange(0, self.queues@.len() as int) =~= self.queues@);
        }
        indices
    }

    /// The creation request for one buffer of `buffer_size` bytes: exclusive
    /// sharing across this allocator's queue families, persistently mapped,
    /// with exactly the requested usage and memory properties.
    pub fn allocate_single_buffer(
        &self,
        buffer_size: u64,
        buffer_usage: u32,
        memory_usage: MemoryUsage,
        memory_property_flags: u32,
    ) -> (r: BufferCreateRequest)
        ensures
            r.size == buffer_size,
            r.usage == buffer_usage,
            r.sharing_exclusive,
            r.queue_family_indices@ =~= spec_family_indices(self.queues@),
            r.memory_usage == memory_usage,
            r.required_flags == memory_property_flags,
            r.mapped,
    {
        BufferCreateRequest {
            size: buffer_size,
            usage: buffer_usage,
            sharing_exclusive: true,
            queue_family_indices: self.queue_family_indices(),
            memory_usage,
            required_flags: memory_property_flags,
            mapped: true,
        }
    }

    /// The creation request for a staging buffer of `buffer_size` bytes:
    /// host-visible and host-coherent, usable as a transfer source.
    pub fn staging_buffer(&self, buffer_size: u64) -> (r: BufferCreateRequest)
        ensures
            r.size == buffer_size,
            r.usage == BUFFER_USAGE_TRANSFER_SRC | BUFFER_USAGE_SHADER_DEVICE_ADDRESS,
            r.sharing_exclusive,
            r.queue_family_indices@ =~= spec_family_indices(self.queues@),
            r.memory_usage is Unknown,
            r.required_flags == MEMORY_PROPERTY_HOST_VISIBLE | MEMORY_PROPERTY_HOST_COHERENT,
            r.mapped,
    {
        self.allocate_single_buffer(
            buffer_size,
            BUFFER_USAGE_TRANSFER_SRC | BUFFER_USAGE_SHADER_DEVICE_ADDRESS,
            MemoryUsage::Unknown,
            MEMORY_PROPERTY_HOST_VISIBLE | MEMORY_PROPERTY_HOST_COHERENT,
        )
    }

    /// The creation request for a device-local image: always usable as a
    /// transfer source and destination (on top of the requested usage), one
    /// mip level, starting in the given layout or undefined.
    pub fn create_image(
        &self,
        extent: Extent3d,
        format: ImageFormat,
        initial_layout: Option<ImageLayout>,
        flags: u32,
        aspect_flags: u32,
    ) -> (r: ImageCreateRequest)
        ensures
            r.extent == extent,
            r.format == format,
            r.usage == flags | IMAGE_USAGE_TRANSFER_SRC | IMAGE_USAGE_TRANSFER_DST,
            r.aspect_flags == aspect_flags,
            r.initial_layout == match initial_layout {
                Some(l) => l,
                None => ImageLayout::Undefined,
            },
            r.mip_levels == 1,
            r.memory_usage is GpuOnly,
            r.required_flags == MEMORY_PROPERTY_DEVICE_LOCAL,
    {
        let layout = match initial_layout {
            Some(l) => l,
            None => ImageLayout::Undefined,
        };
        ImageCreateRequest {
            extent,
            format,
            usage: flags | IMAGE_USAGE_TRANSFER_SRC | IMAGE_USAGE_TRANSFER_DST,
            aspect_flags,
            initial_layout: layout,
            mip_levels: 1,
            memory_usage: MemoryUsage::GpuOnly,
            required_flags: MEMORY_PROPERTY_DEVICE_LOCAL,
        }
    }

    /// The staged-upload plan for a buffer of `payload_bytes` bytes of data:
    /// stage host-visibly, copy, block until the queue is idle, and only
    /// then destroy the staging buffer. The destination buffer gets the
    /// requested usage plus transfer-destination.
    pub fn create_buffer_with_mapped_memory(
        &self,
        payload_bytes: u64,
        buffer_usage: u32,
        memory_usage: MemoryUsage,
        memory_property_flags: u32,
    ) -> (r: (UploadPlan, BufferCreateRequest))
        ensures
            r.0.staging.size == payload_bytes,
            r.0.staging.usage == BUFFER_USAGE_TRANSFER_SRC | BUFFER_USAGE_SHADER_DEVICE_ADDRESS,
            r.0.staging.required_flags == MEMORY_PROPERTY_HOST_VISIBLE
                | MEMORY_PROPERTY_HOST_COHERENT,
            r.1.size == payload_bytes,
            r.1.usage == BUFFER_USAGE_TRANSFER_DST | buffer_usage,
            r.1.memory_usage == memory_usage,
            r.1.required_flags == memory_property_flags,
            r.1.queue_family_indices@ =~= spec_family_indices(self.queues@),
            r.0.steps@ =~= seq![
                UploadStep::AllocateStaging,
                UploadStep::MapStaging,
                UploadStep::CopyToStaging { bytes: payload_bytes },
                UploadStep::UnmapStaging,
                UploadStep::AllocateDestination,
                UploadStep::CopyBufferToDestination { size: payload_bytes },
                UploadStep::SubmitAndWaitIdle,
                UploadStep::DestroyStaging,
            ],
    {
        let staging = self.staging_buffer(payload_bytes);
        let destination = self.allocate_single_buffer(
            payload_bytes,
            BUFFER_USAGE_TRANSFER_DST | buffer_usage,
            memory_usage,
            memory_property_flags,
        );
        let mut steps: Vec<UploadStep> = Vec::new();
        steps.push(UploadStep::AllocateStaging);
        steps.push(UploadStep::MapStaging);
        steps.push(UploadStep::CopyToStaging { bytes: payload_bytes });
        steps.push(UploadStep::UnmapStaging);
        steps.push(UploadStep::AllocateDestination);
        steps.push(UploadStep::CopyBufferToDestination { size: payload_bytes });
        steps.push(UploadStep::SubmitAndWaitIdle);
        steps.push(UploadStep::DestroyStaging);
        (UploadPlan { staging, steps }, destination)
    }

    /// The staged-upload plan for an image with `extent` of four-byte
    /// texels: stage the payload, transition the image to
    /// transfer-destination, copy, transition to shader-read, block until
    /// the queue is idle, and only then destroy the staging buffer.
    pub fn create_image_with_data(
        &self,
        extent: Extent3d,
        format: ImageFormat,
        usage: u32,
        aspect_flags: u32,
    ) -> (r: (UploadPlan, ImageCreateRequest))
        requires
            extent.width >= 1,
            extent.height >= 1,
            extent.depth >= 1,
            extent.depth as int * extent.width as int * extent.height as int * 4 <= u32::MAX
                as int,
        ensures
            r.0.staging.size as int == extent.depth as int * extent.width as int
                * extent.height as int * 4,
            r.0.staging.usage == BUFFER_USAGE_TRANSFER_SRC | BUFFER_USAGE_SHADER_DEVICE_ADDRESS,
            r.0.staging.required_flags == MEMORY_PROPERTY_HOST_VISIBLE
                | MEMORY_PROPERTY_HOST_COHERENT,
            r.1.extent == extent,
            r.1.format == format,
            r.1.usage == (usage | IMAGE_USAGE_TRANSFER_SRC | IMAGE_USAGE_TRANSFER_DST),
            r.1.aspect_flags == aspect_flags,
            r.1.memory_usage is GpuOnly,
            r.0.steps@ =~= seq![
                UploadStep::AllocateStaging,
                UploadStep::MapStaging,
                UploadStep::CopyToStaging {
                    bytes: (extent.depth as int * extent.width as int * extent.height as int
                        * 4) as u64,
                },
                UploadStep::UnmapStaging,
                UploadStep::AllocateDestination,
                UploadStep::TransitionToTransferDst,
                UploadStep::CopyBufferToImage { extent },
                UploadStep::TransitionToShaderRead,
                UploadStep::SubmitAndWaitIdle,
                UploadStep::DestroyStaging,
            ],
    {
        proof {
            assert(extent.depth as int * extent.width as int <= extent.depth as int
                * extent.width as int * extent.height as int * 4) by (nonlinear_arith)
                requires
                    extent.height >= 1,
                    extent.depth >= 1,
                    extent.width >= 1,
            ;
            assert(extent.depth as int * extent.width as int * extent.height as int <= extent.depth
                as int * extent.width as int * extent.height as int * 4) by (nonlinear_arith)
                requires
                    extent.height >= 1,
                    extent.depth >= 1,
                    extent.width >= 1,
            ;
        }
        let data_size: u64 = ((extent.depth * extent.width * extent.height) * 4) as u64;
        let staging = self.staging_buffer(data_size);
        let image = self.create_image(extent, format, None, usage, aspect_flags);
        let mut steps: Vec<UploadStep> = Vec::new();
        steps.push(UploadStep::AllocateStaging);
        steps.push(UploadStep::MapStaging);
        steps.push(UploadStep::CopyToStaging { bytes: data_size });
        steps.push(UploadStep::UnmapStaging);
        steps.push(UploadStep::AllocateDestination);
        steps.push(UploadStep::TransitionToTransferDst);
        steps.push(UploadStep::CopyBufferToImage { extent });
        steps.push(UploadStep::TransitionToShaderRead);
        steps.push(UploadStep::SubmitAndWaitIdle);
        steps.push(UploadStep::DestroyStaging);
        (UploadPlan { staging, steps }, image)
    }
}

/// The contents of one mapped host-visible, host-coherent allocation, as the
/// CPU sees it through the mapping: writes land in the bytes directly and
/// read back exactly, with no GPU-side involvement.
#[derive(Debug, Clone, PartialEq, Eq)]
pub struct HostVisibleMemory {
    bytes: Vec<u8>,
    mapped: bool,
}

impl HostVisibleMemory {
    /// The allocation's bytes.
    pub closed spec fn spec_bytes(self) -> Seq<u8> {
        self.bytes@
    }

    /// Whether the allocation is currently mapped.
    pub closed spec fn spec_mapped(self) -> bool {
        self.mapped
    }

    /// A fresh allocation of `size` zeroed bytes, not mapped.
    pub fn new(size: usize) -> (r: HostVisibleMemory)
        ensures
            r.spec_bytes().len() == size,
            forall|i: int| 0 <= i < size ==> r.spec_bytes()[i] == 0u8,
            !r.spec_mapped(),
    {
        let mut bytes: Vec<u8> = Vec::new();
        let mut k: usize = 0;
        while k < size
            invariant
                k <= size,
                bytes@.len() == k,
                forall|i: int| 0 <= i < k ==> bytes@[i] == 0u8,
            decreases size - k,
        {
            bytes.push(0u8);
            k = k + 1;
        }
        HostVisibleMemory { bytes, mapped: false }
    }

    pub fn size(&self) -> (r: usize)
        ensures
            r == self.spec_bytes().len(),
    {
        self.bytes.len()
    }

    /// Map the allocation; the bytes are untouched.
    pub fn map_memory(&mut self)
        requires
            !old(self).spec_mapped(),
        ensures
            final(self).spec_mapped(),
            final(self).spec_bytes() == old(self).spec_bytes(),
    {
        self.mapped = true;
    }

    /// Unmap the allocation; being host-coherent, the bytes stay exactly as
    /// written.
    pub fn unmap_memory(&mut self)
        requires
            old(self).spec_mapped(),
        ensures
            !final(self).spec_mapped(),
            final(self).spec_bytes() == old(self).spec_bytes(),
    {
        self.mapped = false;
    }

    /// Write `data` at `offset` through the mapping: exactly those bytes
    /// change, to exactly the written values.
    pub fn write_bytes(&mut self, offset: usize, data: &[u8])
        requires
            old(self).spec_mapped(),
            offset + data@.len() <= old(self).spec_bytes().len(),
        ensures
            final(self).spec_mapped(),
            final(self).spec_bytes().len() == old(self).spec_bytes().len(),
            forall|i: int|
                offset <= i < offset + data@.len() ==> final(self).spec_bytes()[i] == data@[i
                    - offset],
            forall|i: int|
                0 <= i < old(self).spec_bytes().len() && !(offset <= i < offset + data@.len())
                    ==> final(self).spec_bytes()[i] == old(self).spec_bytes()[i],
    {
        let ghost bytes0 = self.bytes@;
        let total = self.bytes.len();
        let mut k: usize = 0;
        while k < data.len()
            invariant
                self.mapped,
                k <= data@.len(),
                offset + data@.len() <= self.bytes@.len(),
                self.bytes@.len() == total,
                self.bytes@.len() == bytes0.len(),
                forall|i: int| offset <= i < offset + k ==> self.bytes@[i] == data@[i - offset],
                forall|i: int|
                    0 <= i < bytes0.len() && !(offset <= i < offset + k) ==> self.bytes@[i]
                        == bytes0[i],
            decreases data@.len() - k,
        {
            let value = data[k];
            self.bytes[offset + k] = value;
            k = k + 1;
        }
    }

    /// Read `len` bytes at `offset` through the mapping: exactly the bytes
    /// as they stand.
    pub fn read_bytes(&self, offset: usize, len: usize) -> (r: Vec<u8>)
        requires
            self.spec_mapped(),
            offset + len <= self.spec_bytes().len(),
        ensures
            r@ =~= self.spec_bytes().subrange(offset as int, offset as int + len as int),
    {
        let mut out: Vec<u8> = Vec::new();
        let total = self.bytes.len();
        let mut k: usize = 0;
        while k < len
            invariant
                k <= len,
                offset + len <= self.spec_bytes().len(),
                self.spec_bytes().len() == total,
                out@.len() == k,
                forall|i: int| 0 <= i < k ==> out@[i] == self.spec_bytes()[offset + i],
            decreases len - k,
        {
            out.push(self.bytes[offset + k]);
            k = k + 1;
        }
        out
    }
}

} // verus!
