//! Plain-value forms of the native graphics objects the subsystem manages.
//!
//! The native API hands out opaque object handles (64-bit values) and flag
//! words; the verified layer never dereferences them, it only tracks their
//! identity and pairing. Every handle here is a `u64` and every flag word a
//! `u32` carrying the native bit values, so the unverified driver can pass
//! them through unchanged.

use vstd::prelude::*;

verus! {

/// Identity of a native buffer object.
pub type BufferHandle = u64;

/// Identity of a native image object.
pub type ImageHandle = u64;

/// Identity of a native image-view object.
pub type ImageViewHandle = u64;

/// Identity of a memory allocation made by the GPU memory sub-allocator.
/// Each buffer or image is backed by exactly one allocation, and destruction
/// must present both the object handle and this allocation handle.
pub type AllocationHandle = u64;

// Buffer usage bits, as the native API defines them.
pub const BUFFER_USAGE_TRANSFER_SRC: u32 = 0x1;
pub const BUFFER_USAGE_TRANSFER_DST: u32 = 0x2;
pub const BUFFER_USAGE_UNIFORM_BUFFER: u32 = 0x10;
pub const BUFFER_USAGE_STORAGE_BUFFER: u32 = 0x20;
pub const BUFFER_USAGE_INDEX_BUFFER: u32 = 0x40;
pub const BUFFER_USAGE_VERTEX_BUFFER: u32 = 0x80;
pub const BUFFER_USAGE_SHADER_DEVICE_ADDRESS: u32 = 0x20000;

// Image usage bits.
pub const IMAGE_USAGE_TRANSFER_SRC: u32 = 0x1;
pub const IMAGE_USAGE_TRANSFER_DST: u32 = 0x2;
pub const IMAGE_USAGE_SAMPLED: u32 = 0x4;
pub const IMAGE_USAGE_STORAGE: u32 = 0x8;
pub const IMAGE_USAGE_COLOR_ATTACHMENT: u32 = 0x10;
pub const IMAGE_USAGE_DEPTH_STENCIL_ATTACHMENT: u32 = 0x20;

// Memory property bits.
pub const MEMORY_PROPERTY_DEVICE_LOCAL: u32 = 0x1;
pub const MEMORY_PROPERTY_HOST_VISIBLE: u32 = 0x2;
pub const MEMORY_PROPERTY_HOST_COHERENT: u32 = 0x4;

// Image aspect bits.
pub const IMAGE_ASPECT_COLOR: u32 = 0x1;
pub const IMAGE_ASPECT_DEPTH: u32 = 0x2;

// Shader stage bits.
pub const SHADER_STAGE_VERTEX: u32 = 0x1;
pub const SHADER_STAGE_FRAGMENT: u32 = 0x10;
pub const SHADER_STAGE_COMPUTE: u32 = 0x20;

/// A three-dimensional image extent.
#[derive(Clone, Copy, Debug, PartialEq, Eq, Structural)]
pub struct Extent3d {
    pub width: u32,
    pub height: u32,
    pub depth: u32,
}

/// A pixel format. Only the formats this engine allocates are listed.
#[derive(Clone, Copy, Debug, PartialEq, Eq, Structural)]
pub enum ImageFormat {
    R8G8B8A8Unorm,
    R8G8B8A8Srgb,
    R16G16B16A16Sfloat,
    D32Sfloat,
}

/// An image layout, as the transfer and rendering commands require it.
#[derive(Clone, Copy, Debug, PartialEq, Eq, Structural)]
pub enum ImageLayout {
    Undefined,
    General,
    TransferSrcOptimal,
    TransferDstOptimal,
    ShaderReadOnlyOptimal,
    ColorAttachmentOptimal,
    DepthStencilAttachmentOptimal,
    PresentSrc,
}

/// Intended residence of an allocation, mirroring the sub-allocator's usage
/// classes.
#[derive(Clone, Copy, Debug, PartialEq, Eq, Structural)]
pub enum MemoryUsage {
    Unknown,
    GpuOnly,
    Auto,
}

/// An image handle together with the view created over it.
#[derive(Clone, Copy, Debug, PartialEq, Eq, Structural)]
pub struct ImageDetails {
    pub image: ImageHandle,
    pub image_view: ImageViewHandle,
}

/// A buffer handle together with its device-visible address, for
/// pointer-style GPU access. The address is only meaningful when the buffer
/// was created with address-capable usage flags.
#[derive(Clone, Copy, Debug, PartialEq, Eq, Structural)]
pub struct VkBuffer {
    pub buffer: BufferHandle,
    pub address: u64,
}

/// An allocated image: its handle and view, its extent, and its pixel format.
#[derive(Clone, Copy, Debug, PartialEq, Eq, Structural)]
pub struct AllocatedImage {
    pub image_details: ImageDetails,
    pub extent: Extent3d,
    pub image_format: ImageFormat,
}

impl AllocatedImage {
    pub fn new(image_details: ImageDetails, extent: Extent3d, image_format: ImageFormat) -> (r:
        AllocatedImage)
        ensures
            r.image_details == image_details,
            r.extent == extent,
            r.image_format == image_format,
    {
        AllocatedImage { image_details, extent, image_format }
    }
}

/// Which attachment family a framebuffer belongs to.
#[allow(non_camel_case_types)]
#[derive(Clone, Copy, Debug, Hash, PartialEq, Eq, Structural)]
pub enum IDENTIFIER {
    SWAPCHAIN,
    DRAW,
    DEPTH,
}

} // verus!
