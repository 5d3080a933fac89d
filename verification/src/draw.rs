//! Recording one frame: the exact command stream the renderer puts into the
//! slot's command buffer.
//!
//! Recording into a native command buffer is driver work; which commands to
//! record, and in which order, is decided and verified here. The stream for
//! one frame is: begin the buffer for one-time submission, begin the render
//! pass over the draw framebuffer with a clear, set scissor and viewport,
//! then for every opaque render object its six commands (pipeline, the scene
//! set at slot zero, the material set at slot one, the index buffer, the push
//! constants carrying the vertex-buffer address, the indexed draw), end the
//! pass, and blit the draw image into the acquired swapchain image between
//! two layout transitions.

use vstd::prelude::*;

use crate::handles::{
    ImageHandle, ImageLayout, SHADER_STAGE_FRAGMENT, SHADER_STAGE_VERTEX,
};
use crate::image_util::{image_transition, spec_image_transition, ImageBarrier};
use crate::swapchain::Extent2d;

verus! {

/// A signed offset in pixels.
#[derive(Debug, Clone, Copy, PartialEq, Eq, Structural)]
pub struct Offset2d {
    pub x: i32,
    pub y: i32,
}

/// A render area: offset and extent.
#[derive(Debug, Clone, Copy, PartialEq, Eq, Structural)]
pub struct Rect2d {
    pub offset: Offset2d,
    pub extent: Extent2d,
}

/// One object of the frame's opaque pass, with everything its draw commands
/// name: the pipeline and layout of its material, the material's descriptor
/// set, its index window, and the device address its vertex data lives at.
#[derive(Debug, Clone, Copy, PartialEq, Eq, Structural)]
pub struct RenderObject {
    pub pipeline: u64,
    pub pipeline_layout: u64,
    pub material_set: u64,
    pub index_buffer: u64,
    pub index_count: u32,
    pub first_index: u32,
    pub vertex_buffer_address: u64,
}

/// One recorded command, as the driver replays it into the native buffer.
#[derive(Debug, Clone, Copy, PartialEq, Eq, Structural)]
pub enum DrawCommand {
    /// Begin the command buffer for one-time submission.
    BeginCommandBuffer,
    /// Begin the render pass over `framebuffer`, clearing color to black and
    /// depth to the far plane.
    BeginRenderPass { framebuffer: u64, render_area: Rect2d },
    /// Set the dynamic scissor.
    SetScissor { rect: Rect2d },
    /// Set the dynamic viewport over the whole extent.
    SetViewport { extent: Extent2d },
    /// Bind a graphics pipeline.
    BindPipeline { pipeline: u64 },
    /// Bind one descriptor set at `first_set` of `layout`.
    BindDescriptorSets { layout: u64, first_set: u32, set: u64 },
    /// Bind the index buffer (32-bit indices, offset zero).
    BindIndexBuffer { buffer: u64 },
    /// Push the per-object constants: the world transform bytes the driver
    /// holds for the object, followed by this vertex-buffer address.
    PushConstants { layout: u64, stages: u32, vertex_buffer_address: u64 },
    /// One indexed draw of one instance.
    DrawIndexed { index_count: u32, instance_count: u32, first_index: u32 },
    /// End the render pass.
    EndRenderPass,
    /// Record a layout transition.
    Transition { barrier: ImageBarrier },
    /// Blit the draw image into the swapchain image at `extent`.
    CopyImageToImage { src: ImageHandle, dst: ImageHandle, extent: Extent2d },
    /// End the command buffer.
    EndCommandBuffer,
}

/// The six commands that draw one object, binding the frame's scene set at
/// slot zero and the object's material set at slot one.
pub open spec fn object_draw_commands(o: RenderObject, scene_set: u64) -> Seq<DrawCommand> {
    seq![
        DrawCommand::BindPipeline { pipeline: o.pipeline },
        DrawCommand::BindDescriptorSets { layout: o.pipeline_layout, first_set: 0, set: scene_set },
        DrawCommand::BindDescriptorSets {
            layout: o.pipeline_layout,
            first_set: 1,
            set: o.material_set,
        },
        DrawCommand::BindIndexBuffer { buffer: o.index_buffer },
        DrawCommand::PushConstants {
            layout: o.pipeline_layout,
            stages: SHADER_STAGE_VERTEX | SHADER_STAGE_FRAGMENT,
            vertex_buffer_address: o.vertex_buffer_address,
        },
        DrawCommand::DrawIndexed {
            index_count: o.index_count,
            instance_count: 1,
            first_index: o.first_index,
        },
    ]
}

/// The draw commands of a whole object list, in order.
pub open spec fn objects_commands(objects: Seq<RenderObject>, scene_set: u64) -> Seq<DrawCommand>
    decreases objects.len(),
{
    if objects.len() == 0 {
        Seq::empty()
    } else {
        objects_commands(objects.drop_last(), scene_set) + object_draw_commands(
            objects.last(),
            scene_set,
        )
    }
}

/// The geometry pass: scissor and viewport, then every object's six
/// commands, in object order.
pub fn draw_geom(
    objects: &Vec<RenderObject>,
    scene_set: u64,
    render_area: Rect2d,
    extent: Extent2d,
) -> (r: Vec<DrawCommand>)
    ensures
        r@ =~= seq![
            DrawCommand::SetScissor { rect: render_area },
            DrawCommand::SetViewport { extent },
        ] + objects_commands(objects@, scene_set),
{
    let mut commands: Vec<DrawCommand> = Vec::new();
    commands.push(DrawCommand::SetScissor { rect: render_area });
    commands.push(DrawCommand::SetViewport { extent });
    let ghost prefix = commands@;
    let mut k: usize = 0;
    while k < objects.len()
        invariant
            k <= objects@.len(),
            prefix.len() == 2,
            commands@ =~= prefix + objects_commands(objects@.subrange(0, k as int), scene_set),
        decreases objects@.len() - k,
    {
        let o = objects[k];
        commands.push(DrawCommand::BindPipeline { pipeline: o.pipeline });
        commands.push(
            DrawCommand::BindDescriptorSets {
                layout: o.pipeline_layout,
                first_set: 0,
                set: scene_set,
            },
        );
        commands.push(
            DrawCommand::BindDescriptorSets {
                layout: o.pipeline_layout,
                first_set: 1,
                set: o.material_set,
            },
        );
        commands.push(DrawCommand::BindIndexBuffer { buffer: o.index_buffer });
        commands.push(
            DrawCommand::PushConstants {
                layout: o.pipeline_layout,
                stages: SHADER_STAGE_VERTEX | SHADER_STAGE_FRAGMENT,
                vertex_buffer_address: o.vertex_buffer_address,
            },
        );
        commands.push(
            DrawCommand::DrawIndexed {
                index_count: o.index_count,
                instance_count: 1,
                first_index: o.first_index,
            },
        );
        proof {
            assert(objects@.subrange(0, k + 1 as int).drop_last() =~= objects@.subrange(
                0,
                k as int,
            ));
            assert(objects@.subrange(0, k + 1 as int).last() == objects@[k as int]);
            assert(commands@ =~= prefix + objects_commands(
                objects@.subrange(0, k + 1 as int),
                scene_set,
            ));
        }
        k = k + 1;
    }
    proof {
        assert(objects@.subrange(0, objects@.len() as int) =~= objects@);
    }
    commands
}

/// The whole frame's command stream: begin, the render pass with the
/// geometry inside, and the copy of the draw image into the acquired
/// swapchain image, transitioned to transfer-destination before the copy and
/// to the general layout after it.
pub fn record_command_buffer(
    objects: &Vec<RenderObject>,
    scene_set: u64,
    framebuffer: u64,
    render_area: Rect2d,
    extent: Extent2d,
    queue_family_idx: u32,
    draw_image: ImageHandle,
    swapchain_image: ImageHandle,
) -> (r: Vec<DrawCommand>)
    ensures
        r@ =~= seq![
            DrawCommand::BeginCommandBuffer,
            DrawCommand::BeginRenderPass { framebuffer, render_area },
            DrawCommand::SetScissor { rect: render_area },
            DrawCommand::SetViewport { extent },
        ] + objects_commands(objects@, scene_set) + seq![
            DrawCommand::EndRenderPass,
            DrawCommand::Transition {
                barrier: spec_image_transition(
                    queue_family_idx,
                    swapchain_image,
                    ImageLayout::Undefined,
                    ImageLayout::TransferDstOptimal,
                ),
            },
            DrawCommand::CopyImageToImage { src: draw_image, dst: swapchain_image, extent },
            DrawCommand::Transition {
                barrier: spec_image_transition(
                    queue_family_idx,
                    swapchain_image,
                    ImageLayout::TransferDstOptimal,
                    ImageLayout::General,
                ),
            },
            DrawCommand::EndCommandBuffer,
        ],
{
    let mut commands: Vec<DrawCommand> = Vec::new();
    commands.push(DrawCommand::BeginCommandBuffer);
    commands.push(DrawCommand::BeginRenderPass { framebuffer, render_area });
    let mut geometry = draw_geom(objects, scene_set, render_area, extent);
    commands.append(&mut geometry);
    commands.push(DrawCommand::EndRenderPass);
    let to_transfer = image_transition(
        queue_family_idx,
        swapchain_image,
        ImageLayout::Undefined,
        ImageLayout::TransferDstOptimal,
    );
    commands.push(DrawCommand::Transition { barrier: to_transfer });
    commands.push(DrawCommand::CopyImageToImage { src: draw_image, dst: swapchain_image, extent });
    let to_general = image_transition(
        queue_family_idx,
        swapchain_image,
        ImageLayout::TransferDstOptimal,
        ImageLayout::General,
    );
    commands.push(DrawCommand::Transition { barrier: to_general });
    commands.push(DrawCommand::EndCommandBuffer);
    commands
}

} // verus!
