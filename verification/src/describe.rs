//! What the objects of one generation of a swap chain look like.
//!
//! Every object is described from the few values that vary between
//! generations: the formats, the extent and the handles of the objects that it
//! is built on.

use vstd::prelude::*;
use crate::constants::{
    ACCESS_COLOR_ATTACHMENT_READ,
    ACCESS_COLOR_ATTACHMENT_WRITE,
    ATTACHMENT_LOAD_OP_CLEAR,
    ATTACHMENT_LOAD_OP_DONT_CARE,
    ATTACHMENT_STORE_OP_DONT_CARE,
    ATTACHMENT_STORE_OP_STORE,
    COMMAND_BUFFER_LEVEL_PRIMARY,
    COMPONENT_SWIZZLE_IDENTITY,
    FENCE_CREATE_SIGNALED,
    IMAGE_ASPECT_COLOR,
    IMAGE_ASPECT_DEPTH,
    IMAGE_LAYOUT_COLOR_ATTACHMENT_OPTIMAL,
    IMAGE_LAYOUT_DEPTH_STENCIL_ATTACHMENT_OPTIMAL,
    IMAGE_LAYOUT_PRESENT_SRC_KHR,
    IMAGE_LAYOUT_UNDEFINED,
    IMAGE_TILING_OPTIMAL,
    IMAGE_TYPE_2D,
    IMAGE_USAGE_DEPTH_STENCIL_ATTACHMENT,
    IMAGE_VIEW_TYPE_2D,
    MAX_FRAMES_IN_FLIGHT,
    MEMORY_PROPERTY_DEVICE_LOCAL,
    PIPELINE_BIND_POINT_GRAPHICS,
    PIPELINE_STAGE_COLOR_ATTACHMENT_OUTPUT,
    SAMPLE_COUNT_1,
    SHARING_MODE_EXCLUSIVE,
    SUBPASS_EXTERNAL,
};
use crate::device::Format;
use crate::extent::Extent2D;
use crate::handles::{CommandPool, Framebuffer, Image, ImageView, RenderPass};
use crate::info::{
    AttachmentDescription,
    AttachmentReference,
    ClearColorValue,
    ClearDepthStencilValue,
    CommandBufferAllocateInfo,
    CommandBufferBeginInfo,
    ComponentMapping,
    Extent3D,
    FenceCreateInfo,
    FramebufferCreateInfo,
    ImageCreateInfo,
    ImageSubresourceRange,
    ImageViewCreateInfo,
    Offset2D,
    Rect2D,
    RenderPassBeginInfo,
    RenderPassCreateInfo,
    SubpassDependency,
    SubpassDescription,
    Viewport,
};

verus! {

/// The bit pattern of the single-precision number 0.
pub const F32_ZERO: u32 = 0x0000_0000;

/// The bit pattern of the single-precision number 1.
pub const F32_ONE: u32 = 0x3F80_0000;

/// The bit pattern of the single-precision number nearest to one tenth.
pub const F32_ONE_TENTH: u32 = 0x3DCC_CCCD;

/// A two-dimensional view of the one mip level and the one layer of `image`,
/// on the given aspect, with every channel where it is.
pub open spec fn spec_view_info(image: Image, format: Format, aspect_mask: u32) -> ImageViewCreateInfo {
    ImageViewCreateInfo {
        image,
        view_type: IMAGE_VIEW_TYPE_2D,
        format,
        components: ComponentMapping {
            r: COMPONENT_SWIZZLE_IDENTITY,
            g: COMPONENT_SWIZZLE_IDENTITY,
            b: COMPONENT_SWIZZLE_IDENTITY,
            a: COMPONENT_SWIZZLE_IDENTITY,
        },
        subresource_range: ImageSubresourceRange {
            aspect_mask,
            base_mip_level: 0,
            level_count: 1,
            base_array_layer: 0,
            layer_count: 1,
        },
    }
}

#[verifier::when_used_as_spec(spec_view_info)]
pub fn view_info(image: Image, format: Format, aspect_mask: u32) -> (r: ImageViewCreateInfo)
    ensures
        r == spec_view_info(image, format, aspect_mask),
{
    ImageViewCreateInfo {
        image,
        view_type: IMAGE_VIEW_TYPE_2D,
        format,
        components: ComponentMapping {
            r: COMPONENT_SWIZZLE_IDENTITY,
            g: COMPONENT_SWIZZLE_IDENTITY,
            b: COMPONENT_SWIZZLE_IDENTITY,
            a: COMPONENT_SWIZZLE_IDENTITY,
        },
        subresource_range: ImageSubresourceRange {
            aspect_mask,
            base_mip_level: 0,
            level_count: 1,
            base_array_layer: 0,
            layer_count: 1,
        },
    }
}

/// The view of the color of a swap image.
pub open spec fn color_view_info(image: Image, format: Format) -> ImageViewCreateInfo {
    spec_view_info(image, format, IMAGE_ASPECT_COLOR)
}

/// The view of the depth of a depth image.
pub open spec fn depth_view_info(image: Image, format: Format) -> ImageViewCreateInfo {
    spec_view_info(image, format, IMAGE_ASPECT_DEPTH)
}

/// The color attachment: one sample per texel, cleared when the pass begins
/// and stored when it ends; what it held before is of no interest, and it
/// leaves the pass ready to be presented.
pub open spec fn spec_color_attachment(format: Format) -> AttachmentDescription {
    AttachmentDescription {
        format,
        samples: SAMPLE_COUNT_1,
        load_op: ATTACHMENT_LOAD_OP_CLEAR,
        store_op: ATTACHMENT_STORE_OP_STORE,
        stencil_load_op: ATTACHMENT_LOAD_OP_DONT_CARE,
        stencil_store_op: ATTACHMENT_STORE_OP_DONT_CARE,
        initial_layout: IMAGE_LAYOUT_UNDEFINED,
        final_layout: IMAGE_LAYOUT_PRESENT_SRC_KHR,
    }
}

#[verifier::when_used_as_spec(spec_color_attachment)]
pub fn color_attachment(format: Format) -> (r: AttachmentDescription)
    ensures
        r == spec_color_attachment(format),
{
    AttachmentDescription {
        format,
        samples: SAMPLE_COUNT_1,
        load_op: ATTACHMENT_LOAD_OP_CLEAR,
        store_op: ATTACHMENT_STORE_OP_STORE,
        stencil_load_op: ATTACHMENT_LOAD_OP_DONT_CARE,
        stencil_store_op: ATTACHMENT_STORE_OP_DONT_CARE,
        initial_layout: IMAGE_LAYOUT_UNDEFINED,
        final_layout: IMAGE_LAYOUT_PRESENT_SRC_KHR,
    }
}

/// The depth attachment: one sample per texel, cleared when the pass begins
/// and dropped when it ends.
pub open spec fn spec_depth_attachment(format: Format) -> AttachmentDescription {
    AttachmentDescription {
        format,
        samples: SAMPLE_COUNT_1,
        load_op: ATTACHMENT_LOAD_OP_CLEAR,
        store_op: ATTACHMENT_STORE_OP_DONT_CARE,
        stencil_load_op: ATTACHMENT_LOAD_OP_DONT_CARE,
        stencil_store_op: ATTACHMENT_STORE_OP_DONT_CARE,
        initial_layout: IMAGE_LAYOUT_UNDEFINED,
        final_layout: IMAGE_LAYOUT_DEPTH_STENCIL_ATTACHMENT_OPTIMAL,
    }
}

#[verifier::when_used_as_spec(spec_depth_attachment)]
pub fn depth_attachment(format: Format) -> (r: AttachmentDescription)
    ensures
        r == spec_depth_attachment(format),
{
    AttachmentDescription {
        format,
        samples: SAMPLE_COUNT_1,
        load_op: ATTACHMENT_LOAD_OP_CLEAR,
        store_op: ATTACHMENT_STORE_OP_DONT_CARE,
        stencil_load_op: ATTACHMENT_LOAD_OP_DONT_CARE,
        stencil_store_op: ATTACHMENT_STORE_OP_DONT_CARE,
        initial_layout: IMAGE_LAYOUT_UNDEFINED,
        final_layout: IMAGE_LAYOUT_DEPTH_STENCIL_ATTACHMENT_OPTIMAL,
    }
}

/// The one subpass: graphics work on the color attachment at position 0 and
/// the depth attachment at position 1.
pub open spec fn subpass() -> SubpassDescription {
    SubpassDescription {
        pipeline_bind_point: PIPELINE_BIND_POINT_GRAPHICS,
        color_attachment: AttachmentReference {
            attachment: 0,
            layout: IMAGE_LAYOUT_COLOR_ATTACHMENT_OPTIMAL,
        },
        depth_stencil_attachment: AttachmentReference {
            attachment: 1,
            layout: IMAGE_LAYOUT_DEPTH_STENCIL_ATTACHMENT_OPTIMAL,
        },
    }
}

/// The one dependency: the subpass reads and writes color only after
/// everything before the pass has left the stage that outputs color, so
/// that a pass does not start on an image that is still being presented.
pub open spec fn dependency() -> SubpassDependency {
    SubpassDependency {
        src_subpass: SUBPASS_EXTERNAL,
        dst_subpass: 0,
        src_stage_mask: PIPELINE_STAGE_COLOR_ATTACHMENT_OUTPUT,
        dst_stage_mask: PIPELINE_STAGE_COLOR_ATTACHMENT_OUTPUT,
        src_access_mask: 0,
        dst_access_mask: ACCESS_COLOR_ATTACHMENT_READ | ACCESS_COLOR_ATTACHMENT_WRITE,
        dependency_flags: 0,
    }
}

/// The render pass of a swap chain with the given formats.
pub open spec fn spec_renderpass_info(color_format: Format, depth_format: Format) -> RenderPassCreateInfo {
    RenderPassCreateInfo {
        color_attachment: spec_color_attachment(color_format),
        depth_attachment: spec_depth_attachment(depth_format),
        subpass: subpass(),
        dependency: dependency(),
    }
}

#[verifier::when_used_as_spec(spec_renderpass_info)]
pub fn renderpass_info(color_format: Format, depth_format: Format) -> (r: RenderPassCreateInfo)
    ensures
        r == spec_renderpass_info(color_format, depth_format),
{
    RenderPassCreateInfo {
        color_attachment: color_attachment(color_format),
        depth_attachment: depth_attachment(depth_format),
        subpass: SubpassDescription {
            pipeline_bind_point: PIPELINE_BIND_POINT_GRAPHICS,
            color_attachment: AttachmentReference {
                attachment: 0,
                layout: IMAGE_LAYOUT_COLOR_ATTACHMENT_OPTIMAL,
            },
            depth_stencil_attachment: AttachmentReference {
                attachment: 1,
                layout: IMAGE_LAYOUT_DEPTH_STENCIL_ATTACHMENT_OPTIMAL,
            },
        },
        dependency: SubpassDependency {
            src_subpass: SUBPASS_EXTERNAL,
            dst_subpass: 0,
            src_stage_mask: PIPELINE_STAGE_COLOR_ATTACHMENT_OUTPUT,
            dst_stage_mask: PIPELINE_STAGE_COLOR_ATTACHMENT_OUTPUT,
            src_access_mask: 0,
            dst_access_mask: ACCESS_COLOR_ATTACHMENT_READ | ACCESS_COLOR_ATTACHMENT_WRITE,
            dependency_flags: 0,
        },
    }
}

/// A depth image as large as the swap images: two-dimensional, one mip level
/// and one layer, one sample per texel, in optimal tiling, owned by one queue
/// family, in memory local to the device.
pub open spec fn spec_depth_image_info(format: Format, extent: Extent2D) -> ImageCreateInfo {
    ImageCreateInfo {
        image_type: IMAGE_TYPE_2D,
        format,
        extent: Extent3D { width: extent.width, height: extent.height, depth: 1 },
        mip_levels: 1,
        array_layers: 1,
        samples: SAMPLE_COUNT_1,
        tiling: IMAGE_TILING_OPTIMAL,
        usage: IMAGE_USAGE_DEPTH_STENCIL_ATTACHMENT,
        sharing_mode: SHARING_MODE_EXCLUSIVE,
        initial_layout: IMAGE_LAYOUT_UNDEFINED,
        memory_properties: MEMORY_PROPERTY_DEVICE_LOCAL,
    }
}

#[verifier::when_used_as_spec(spec_depth_image_info)]
pub fn depth_image_info(format: Format, extent: Extent2D) -> (r: ImageCreateInfo)
    ensures
        r == spec_depth_image_info(format, extent),
{
    ImageCreateInfo {
        image_type: IMAGE_TYPE_2D,
        format,
        extent: Extent3D { width: extent.width, height: extent.height, depth: 1 },
        mip_levels: 1,
        array_layers: 1,
        samples: SAMPLE_COUNT_1,
        tiling: IMAGE_TILING_OPTIMAL,
        usage: IMAGE_USAGE_DEPTH_STENCIL_ATTACHMENT,
        sharing_mode: SHARING_MODE_EXCLUSIVE,
        initial_layout: IMAGE_LAYOUT_UNDEFINED,
        memory_properties: MEMORY_PROPERTY_DEVICE_LOCAL,
    }
}

/// A framebuffer of one layer over a color view and a depth view, as large
/// as the swap images.
pub open spec fn spec_framebuffer_info(
    render_pass: RenderPass,
    color_view: ImageView,
    depth_view: ImageView,
    extent: Extent2D,
) -> FramebufferCreateInfo {
    FramebufferCreateInfo {
        render_pass,
        color_view,
        depth_view,
        width: extent.width,
        height: extent.height,
        layers: 1,
    }
}

#[verifier::when_used_as_spec(spec_framebuffer_info)]
pub fn framebuffer_info(
    render_pass: RenderPass,
    color_view: ImageView,
    depth_view: ImageView,
    extent: Extent2D,
) -> (r: FramebufferCreateInfo)
    ensures
        r == spec_framebuffer_info(render_pass, color_view, depth_view, extent),
{
    FramebufferCreateInfo {
        render_pass,
        color_view,
        depth_view,
        width: extent.width,
        height: extent.height,
        layers: 1,
    }
}

/// A fence that starts out signaled, so that the first wait for it returns.
pub open spec fn spec_fence_info() -> FenceCreateInfo {
    FenceCreateInfo { flags: FENCE_CREATE_SIGNALED }
}

#[verifier::when_used_as_spec(spec_fence_info)]
pub fn fence_info() -> (r: FenceCreateInfo)
    ensures
        r == spec_fence_info(),
{
    FenceCreateInfo { flags: FENCE_CREATE_SIGNALED }
}

/// One primary command buffer for each frame in flight, from the given pool.
pub open spec fn spec_command_buffer_allocate_info(command_pool: CommandPool) -> CommandBufferAllocateInfo {
    CommandBufferAllocateInfo {
        command_pool,
        level: COMMAND_BUFFER_LEVEL_PRIMARY,
        command_buffer_count: MAX_FRAMES_IN_FLIGHT as u32,
    }
}

#[verifier::when_used_as_spec(spec_command_buffer_allocate_info)]
pub fn command_buffer_allocate_info(command_pool: CommandPool) -> (r: CommandBufferAllocateInfo)
    ensures
        r == spec_command_buffer_allocate_info(command_pool),
{
    CommandBufferAllocateInfo {
        command_pool,
        level: COMMAND_BUFFER_LEVEL_PRIMARY,
        command_buffer_count: MAX_FRAMES_IN_FLIGHT as u32,
    }
}

/// The start of a recording without any usage flag.
pub open spec fn spec_command_buffer_begin_info() -> CommandBufferBeginInfo {
    CommandBufferBeginInfo { flags: 0 }
}

#[verifier::when_used_as_spec(spec_command_buffer_begin_info)]
pub fn command_buffer_begin_info() -> (r: CommandBufferBeginInfo)
    ensures
        r == spec_command_buffer_begin_info(),
{
    CommandBufferBeginInfo { flags: 0 }
}

/// The rectangle of the given extent at the origin.
pub open spec fn spec_full_area(extent: Extent2D) -> Rect2D {
    Rect2D { offset: Offset2D { x: 0, y: 0 }, extent }
}

#[verifier::when_used_as_spec(spec_full_area)]
pub fn full_area(extent: Extent2D) -> (r: Rect2D)
    ensures
        r == spec_full_area(extent),
{
    Rect2D { offset: Offset2D { x: 0, y: 0 }, extent }
}

/// The viewport over the whole of the given extent, with depths from 0 to 1.
pub open spec fn spec_full_viewport(extent: Extent2D) -> Viewport {
    Viewport {
        x: 0,
        y: 0,
        width: extent.width,
        height: extent.height,
        min_depth: F32_ZERO,
        max_depth: F32_ONE,
    }
}

#[verifier::when_used_as_spec(spec_full_viewport)]
pub fn full_viewport(extent: Extent2D) -> (r: Viewport)
    ensures
        r == spec_full_viewport(extent),
{
    Viewport {
        x: 0,
        y: 0,
        width: extent.width,
        height: extent.height,
        min_depth: F32_ZERO,
        max_depth: F32_ONE,
    }
}

/// Opaque dark gray: one tenth of each color.
pub open spec fn spec_dark_gray() -> ClearColorValue {
    ClearColorValue { r: F32_ONE_TENTH, g: F32_ONE_TENTH, b: F32_ONE_TENTH, a: F32_ONE }
}

#[verifier::when_used_as_spec(spec_dark_gray)]
pub fn dark_gray() -> (r: ClearColorValue)
    ensures
        r == spec_dark_gray(),
{
    ClearColorValue { r: F32_ONE_TENTH, g: F32_ONE_TENTH, b: F32_ONE_TENTH, a: F32_ONE }
}

/// Opaque blue.
pub open spec fn spec_blue() -> ClearColorValue {
    ClearColorValue { r: F32_ZERO, g: F32_ZERO, b: F32_ONE, a: F32_ONE }
}

#[verifier::when_used_as_spec(spec_blue)]
pub fn blue() -> (r: ClearColorValue)
    ensures
        r == spec_blue(),
{
    ClearColorValue { r: F32_ZERO, g: F32_ZERO, b: F32_ONE, a: F32_ONE }
}

/// The start of a pass over the whole of `extent` that clears the color to
/// `clear_color`, the depth to 1 and the stencil to 0.
pub open spec fn spec_renderpass_begin_info(
    render_pass: RenderPass,
    framebuffer: Framebuffer,
    extent: Extent2D,
    clear_color: ClearColorValue,
) -> RenderPassBeginInfo {
    RenderPassBeginInfo {
        render_pass,
        framebuffer,
        render_area: spec_full_area(extent),
        clear_color,
        clear_depth_stencil: ClearDepthStencilValue { depth: F32_ONE, stencil: 0 },
    }
}

#[verifier::when_used_as_spec(spec_renderpass_begin_info)]
pub fn renderpass_begin_info(
    render_pass: RenderPass,
    framebuffer: Framebuffer,
    extent: Extent2D,
    clear_color: ClearColorValue,
) -> (r: RenderPassBeginInfo)
    ensures
        r == spec_renderpass_begin_info(render_pass, framebuffer, extent, clear_color),
{
    RenderPassBeginInfo {
        render_pass,
        framebuffer,
        render_area: full_area(extent),
        clear_color,
        clear_depth_stencil: ClearDepthStencilValue { depth: F32_ONE, stencil: 0 },
    }
}

} // verus!
