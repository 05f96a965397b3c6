//! Descriptions of the objects that the engine asks the platform to create.
//!
//! Each structure holds, as plain values, what the platform's structure of the
//! same name holds. Fixed-size lists are written out as fields: a render pass
//! here has exactly one color and one depth attachment, a framebuffer exactly
//! one view of each.

use vstd::prelude::*;
use crate::device::{ColorSpaceKHR, Format, PresentModeKHR};
use crate::extent::Extent2D;
use crate::handles::{
    CommandBuffer,
    CommandPool,
    Framebuffer,
    Image,
    ImageView,
    RenderPass,
    Semaphore,
    SurfaceKHR,
    SwapchainKHR,
};

verus! {

/// Which queue families may touch the images of a swap chain.
#[derive(Clone, Copy, PartialEq, Eq, Structural, Debug)]
pub enum ImageSharing {
    /// One family owns the images.
    Exclusive,
    /// The drawing and the presenting family share them.
    Concurrent { graphics_family: u32, present_family: u32 },
}

#[derive(Clone, Copy, PartialEq, Eq, Structural, Debug)]
pub struct SwapchainCreateInfoKHR {
    pub surface: SurfaceKHR,
    pub min_image_count: u32,
    pub image_format: Format,
    pub image_color_space: ColorSpaceKHR,
    pub image_extent: Extent2D,
    pub image_array_layers: u32,
    pub image_usage: u32,
    pub image_sharing: ImageSharing,
    pub pre_transform: u32,
    pub composite_alpha: u32,
    pub present_mode: PresentModeKHR,
    pub clipped: bool,
    /// The chain that this one replaces, or the null handle.
    pub old_swapchain: SwapchainKHR,
}

#[derive(Clone, Copy, PartialEq, Eq, Structural, Debug)]
pub struct ComponentMapping {
    pub r: i32,
    pub g: i32,
    pub b: i32,
    pub a: i32,
}

#[derive(Clone, Copy, PartialEq, Eq, Structural, Debug)]
pub struct ImageSubresourceRange {
    pub aspect_mask: u32,
    pub base_mip_level: u32,
    pub level_count: u32,
    pub base_array_layer: u32,
    pub layer_count: u32,
}

#[derive(Clone, Copy, PartialEq, Eq, Structural, Debug)]
pub struct ImageViewCreateInfo {
    pub image: Image,
    pub view_type: i32,
    pub format: Format,
    pub components: ComponentMapping,
    pub subresource_range: ImageSubresourceRange,
}

#[derive(Clone, Copy, PartialEq, Eq, Structural, Debug)]
pub struct AttachmentDescription {
    pub format: Format,
    pub samples: u32,
    pub load_op: i32,
    pub store_op: i32,
    pub stencil_load_op: i32,
    pub stencil_store_op: i32,
    pub initial_layout: i32,
    pub final_layout: i32,
}

#[derive(Clone, Copy, PartialEq, Eq, Structural, Debug)]
pub struct AttachmentReference {
    /// The position of the attachment in the render pass.
    pub attachment: u32,
    pub layout: i32,
}

#[derive(Clone, Copy, PartialEq, Eq, Structural, Debug)]
pub struct SubpassDescription {
    pub pipeline_bind_point: i32,
    pub color_attachment: AttachmentReference,
    pub depth_stencil_attachment: AttachmentReference,
}

#[derive(Clone, Copy, PartialEq, Eq, Structural, Debug)]
pub struct SubpassDependency {
    pub src_subpass: u32,
    pub dst_subpass: u32,
    pub src_stage_mask: u32,
    pub dst_stage_mask: u32,
    pub src_access_mask: u32,
    pub dst_access_mask: u32,
    pub dependency_flags: u32,
}

/// A render pass of two attachments, the color attachment at position 0 and
/// the depth attachment at position 1, with one subpass and one dependency.
#[derive(Clone, Copy, PartialEq, Eq, Structural, Debug)]
pub struct RenderPassCreateInfo {
    pub color_attachment: AttachmentDescription,
    pub depth_attachment: AttachmentDescription,
    pub subpass: SubpassDescription,
    pub dependency: SubpassDependency,
}

#[derive(Clone, Copy, PartialEq, Eq, Structural, Debug)]
pub struct Extent3D {
    pub width: u32,
    pub height: u32,
    pub depth: u32,
}

/// An image to create, and the properties of the memory to bind to it.
#[derive(Clone, Copy, PartialEq, Eq, Structural, Debug)]
pub struct ImageCreateInfo {
    pub image_type: i32,
    pub format: Format,
    pub extent: Extent3D,
    pub mip_levels: u32,
    pub array_layers: u32,
    pub samples: u32,
    pub tiling: i32,
    pub usage: u32,
    pub sharing_mode: i32,
    pub initial_layout: i32,
    pub memory_properties: u32,
}

/// A framebuffer of two attachments, in the order of the render pass.
#[derive(Clone, Copy, PartialEq, Eq, Structural, Debug)]
pub struct FramebufferCreateInfo {
    pub render_pass: RenderPass,
    pub color_view: ImageView,
    pub depth_view: ImageView,
    pub width: u32,
    pub height: u32,
    pub layers: u32,
}

#[derive(Clone, Copy, PartialEq, Eq, Structural, Debug)]
pub struct FenceCreateInfo {
    pub flags: u32,
}

#[derive(Clone, Copy, PartialEq, Eq, Structural, Debug)]
pub struct CommandBufferAllocateInfo {
    pub command_pool: CommandPool,
    pub level: i32,
    pub command_buffer_count: u32,
}

#[derive(Clone, Copy, PartialEq, Eq, Structural, Debug)]
pub struct CommandBufferBeginInfo {
    pub flags: u32,
}

/// One command buffer to run once `wait_semaphore` is signaled, holding back
/// the stages in `wait_dst_stage_mask` until then, and signaling
/// `signal_semaphore` when it is done.
#[derive(Clone, Copy, PartialEq, Eq, Structural, Debug)]
pub struct SubmitInfo {
    pub wait_semaphore: Semaphore,
    pub wait_dst_stage_mask: u32,
    pub command_buffer: CommandBuffer,
    pub signal_semaphore: Semaphore,
}

/// One image of one swap chain to show once `wait_semaphore` is signaled.
#[derive(Clone, Copy, PartialEq, Eq, Structural, Debug)]
pub struct PresentInfoKHR {
    pub wait_semaphore: Semaphore,
    pub swapchain: SwapchainKHR,
    pub image_index: u32,
}

#[derive(Clone, Copy, PartialEq, Eq, Structural, Debug)]
pub struct Offset2D {
    pub x: i32,
    pub y: i32,
}

#[derive(Clone, Copy, PartialEq, Eq, Structural, Debug)]
pub struct Rect2D {
    pub offset: Offset2D,
    pub extent: Extent2D,
}

/// A color to clear to. Each channel is the bit pattern of a single-precision
/// number.
#[derive(Clone, Copy, PartialEq, Eq, Structural, Debug)]
pub struct ClearColorValue {
    pub r: u32,
    pub g: u32,
    pub b: u32,
    pub a: u32,
}

/// A depth, as the bit pattern of a single-precision number, and a stencil
/// value to clear to.
#[derive(Clone, Copy, PartialEq, Eq, Structural, Debug)]
pub struct ClearDepthStencilValue {
    pub depth: u32,
    pub stencil: u32,
}

/// The start of a render pass on a framebuffer of two attachments.
#[derive(Clone, Copy, PartialEq, Eq, Structural, Debug)]
pub struct RenderPassBeginInfo {
    pub render_pass: RenderPass,
    pub framebuffer: Framebuffer,
    pub render_area: Rect2D,
    pub clear_color: ClearColorValue,
    pub clear_depth_stencil: ClearDepthStencilValue,
}

/// The rectangle that is drawn into, in whole pixels, and the range of
/// depths, each bound the bit pattern of a single-precision number.
#[derive(Clone, Copy, PartialEq, Eq, Structural, Debug)]
pub struct Viewport {
    pub x: u32,
    pub y: u32,
    pub width: u32,
    pub height: u32,
    pub min_depth: u32,
    pub max_depth: u32,
}

} // verus!
