//! Image layout transitions: the barrier each transition records.
//!
//! Recording the barrier into a command buffer is a native call; which
//! barrier to record — aspect, layouts, queue families — is decided here.

use vstd::prelude::*;

use crate::handles::{ImageHandle, ImageLayout, IMAGE_ASPECT_COLOR, IMAGE_ASPECT_DEPTH};

verus! {

/// The subresource window a barrier covers.
#[derive(Debug, Clone, Copy, PartialEq, Eq, Structural)]
pub struct ImageSubresourceRange {
    pub aspect_mask: u32,
}

/// One image memory barrier, ready for the driver to record: the image, the
/// layout pair, and the owning queue family on both sides (no ownership
/// transfer).
#[derive(Debug, Clone, Copy, PartialEq, Eq, Structural)]
pub struct ImageBarrier {
    pub image: ImageHandle,
    pub old_layout: ImageLayout,
    pub new_layout: ImageLayout,
    pub src_queue_family_index: u32,
    pub dst_queue_family_index: u32,
    pub subresource_range: ImageSubresourceRange,
}

/// The subresource window over one aspect.
pub fn image_subresource_range(aspect_mask: u32) -> (r: ImageSubresourceRange)
    ensures
        r.aspect_mask == aspect_mask,
{
    ImageSubresourceRange { aspect_mask }
}

/// The barrier [`image_transition`] returns: it covers the depth aspect when
/// the transition targets a depth-attachment layout, else the color aspect,
/// and keeps the image on its queue family.
pub open spec fn spec_image_transition(
    queue_family_idx: u32,
    image: ImageHandle,
    current_image_layout: ImageLayout,
    new_image_layout: ImageLayout,
) -> ImageBarrier {
    ImageBarrier {
        image,
        old_layout: current_image_layout,
        new_layout: new_image_layout,
        src_queue_family_index: queue_family_idx,
        dst_queue_family_index: queue_family_idx,
        subresource_range: ImageSubresourceRange {
            aspect_mask: if new_image_layout is DepthStencilAttachmentOptimal {
                IMAGE_ASPECT_DEPTH
            } else {
                IMAGE_ASPECT_COLOR
            },
        },
    }
}

/// The barrier that transitions `image` between two layouts on one queue
/// family.
pub fn image_transition(
    queue_family_idx: u32,
    image: ImageHandle,
    current_image_layout: ImageLayout,
    new_image_layout: ImageLayout,
) -> (r: ImageBarrier)
    ensures
        r == spec_image_transition(
            queue_family_idx,
            image,
            current_image_layout,
            new_image_layout,
        ),
{
    let aspect = if matches!(new_image_layout, ImageLayout::DepthStencilAttachmentOptimal) {
        IMAGE_ASPECT_DEPTH
    } else {
        IMAGE_ASPECT_COLOR
    };
    ImageBarrier {
        image,
        old_layout: current_image_layout,
        new_layout: new_image_layout,
        src_queue_family_index: queue_family_idx,
        dst_queue_family_index: queue_family_idx,
        subresource_range: image_subresource_range(aspect),
    }
}

} // verus!
