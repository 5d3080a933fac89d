use piplup::device::QueueFamilyIndices;
use piplup::error::{EguiRenderError, GpuResourceError};
use piplup::handles::{ImageFormat, ImageLayout, IMAGE_ASPECT_COLOR, IMAGE_ASPECT_DEPTH};
use piplup::image_util::image_transition;
use piplup::material::MaterialPass;
use piplup::pipeline::PipelineType;
use piplup::push_constants::PushConstant;
use piplup::renderer::ImageIndex;
use piplup::swapchain::{
    ColorSpace, Extent2d, PresentMode, SurfaceCapabilities, SurfaceFormat,
    SwapchainSupportDetails,
};

#[test]
fn queue_family_indices_are_complete_only_with_both_families() {
    let none = QueueFamilyIndices { graphics_q_idx: None, presentation_q_idx: None };
    let graphics_only = QueueFamilyIndices { graphics_q_idx: Some(0), presentation_q_idx: None };
    let both = QueueFamilyIndices { graphics_q_idx: Some(0), presentation_q_idx: Some(1) };
    assert!(!none.is_complete());
    assert!(!graphics_only.is_complete());
    assert!(both.is_complete());
}

#[test]
fn image_index_carries_the_acquire_result() {
    let image_index = ImageIndex::new((5, true));
    assert_eq!(image_index.index, 5);
    assert!(image_index.recreate_swapchain);
}

#[test]
fn push_constant_sizes() {
    let push_constant = PushConstant::new(0u64, 0xDEAD);
    assert_eq!(push_constant.size_of_T(), 8);
    assert_eq!(push_constant.size(), std::mem::size_of::<PushConstant<u64>>());
    // Payload, device address, and eight bytes of explicit padding.
    assert!(push_constant.size() >= 8 + 8 + 8);
}

#[test]
fn error_kinds_are_distinct() {
    assert_ne!(
        GpuResourceError::ResourceExhausted,
        GpuResourceError::InvariantViolation
    );
    assert_eq!(GpuResourceError::ResourceExhausted.message(), "gpu resource exhausted");
    let egui_error = EguiRenderError::NotManaged("texture".to_string());
    assert!(matches!(egui_error, EguiRenderError::NotManaged(ref name) if name == "texture"));
}

#[test]
fn defaults_select_the_main_pass_and_graphics() {
    assert_eq!(MaterialPass::default(), MaterialPass::GLTF_PBR_MAIN_COLOR);
    assert!(matches!(PipelineType::default(), PipelineType::GRAPHICS));
}

#[test]
fn depth_transitions_use_the_depth_aspect() {
    let to_depth = image_transition(
        2,
        42,
        ImageLayout::Undefined,
        ImageLayout::DepthStencilAttachmentOptimal,
    );
    assert_eq!(to_depth.subresource_range.aspect_mask, IMAGE_ASPECT_DEPTH);
    assert_eq!(to_depth.src_queue_family_index, 2);
    assert_eq!(to_depth.dst_queue_family_index, 2);

    let to_shader_read = image_transition(
        2,
        42,
        ImageLayout::TransferDstOptimal,
        ImageLayout::ShaderReadOnlyOptimal,
    );
    assert_eq!(to_shader_read.subresource_range.aspect_mask, IMAGE_ASPECT_COLOR);
    assert_eq!(to_shader_read.old_layout, ImageLayout::TransferDstOptimal);
    assert_eq!(to_shader_read.new_layout, ImageLayout::ShaderReadOnlyOptimal);
}

fn support_details(current_width: u32) -> SwapchainSupportDetails {
    SwapchainSupportDetails::new(
        SurfaceCapabilities {
            current_extent: Extent2d { width: current_width, height: 600 },
            min_image_extent: Extent2d { width: 100, height: 100 },
            max_image_extent: Extent2d { width: 1920, height: 1080 },
            min_image_count: 2,
            max_image_count: 3,
        },
        vec![
            SurfaceFormat { format: ImageFormat::R8G8B8A8Srgb, color_space: ColorSpace::SrgbNonlinear },
            SurfaceFormat {
                format: ImageFormat::R16G16B16A16Sfloat,
                color_space: ColorSpace::SrgbNonlinear,
            },
        ],
        vec![PresentMode::Mailbox, PresentMode::Fifo],
        Extent2d { width: 2500, height: 50 },
    )
}

#[test]
fn swapchain_selection_policy() {
    let details = support_details(800);
    assert!(details.is_swapchain_adequate());

    let format = details.choose_swapchain_format();
    assert_eq!(format.format, ImageFormat::R16G16B16A16Sfloat);
    assert_eq!(format.color_space, ColorSpace::SrgbNonlinear);

    assert_eq!(details.choose_swapchain_present_mode(), PresentMode::Fifo);

    // The surface fixes the extent.
    assert_eq!(details.choose_swapchain_extent(), Extent2d { width: 800, height: 600 });

    // One more than the minimum, capped at the maximum: min 2 + 1 = 3 <= 3.
    assert_eq!(details.choose_image_count(), 3);
}

#[test]
fn free_extent_is_clamped_to_the_surface_bounds() {
    let details = support_details(u32::MAX);
    // The window is wider than the surface allows and shorter than it
    // requires: both dimensions clamp.
    assert_eq!(details.choose_swapchain_extent(), Extent2d { width: 1920, height: 100 });
}

#[test]
fn inadequate_surfaces_are_detected() {
    let details = SwapchainSupportDetails::new(
        SurfaceCapabilities {
            current_extent: Extent2d { width: 1, height: 1 },
            min_image_extent: Extent2d { width: 1, height: 1 },
            max_image_extent: Extent2d { width: 1, height: 1 },
            min_image_count: 1,
            max_image_count: 0,
        },
        Vec::new(),
        vec![PresentMode::Fifo],
        Extent2d { width: 1, height: 1 },
    );
    assert!(!details.is_swapchain_adequate());
    // No maximum: the count is simply one more than the minimum.
    assert_eq!(details.choose_image_count(), 2);
}
