//! The numbers by which the platform's interface names formats, layouts,
//! operations and flags, as far as the engine decides on them or tells them
//! apart.

use vstd::prelude::*;

verus! {

// The result code of an acquisition or a presentation that found the
// surface changed.
pub const ERROR_OUT_OF_DATE_KHR: i32 = -1_000_001_004;

// Texel formats.
pub const FORMAT_B8G8R8A8_SRGB: i32 = 50;
pub const FORMAT_R32G32_SFLOAT: i32 = 103;
pub const FORMAT_R32G32B32_SFLOAT: i32 = 106;
pub const FORMAT_D32_SFLOAT: i32 = 126;
pub const FORMAT_D24_UNORM_S8_UINT: i32 = 129;
pub const FORMAT_D32_SFLOAT_S8_UINT: i32 = 130;

// Color spaces.
pub const COLOR_SPACE_SRGB_NONLINEAR: i32 = 0;

// Present modes.
pub const PRESENT_MODE_MAILBOX: i32 = 1;
pub const PRESENT_MODE_FIFO: i32 = 2;

// Image layouts.
pub const IMAGE_LAYOUT_UNDEFINED: i32 = 0;
pub const IMAGE_LAYOUT_COLOR_ATTACHMENT_OPTIMAL: i32 = 2;
pub const IMAGE_LAYOUT_DEPTH_STENCIL_ATTACHMENT_OPTIMAL: i32 = 3;
pub const IMAGE_LAYOUT_PRESENT_SRC_KHR: i32 = 1_000_001_002;

// What happens to an attachment when a pass begins and ends.
pub const ATTACHMENT_LOAD_OP_CLEAR: i32 = 1;
pub const ATTACHMENT_LOAD_OP_DONT_CARE: i32 = 2;
pub const ATTACHMENT_STORE_OP_STORE: i32 = 0;
pub const ATTACHMENT_STORE_OP_DONT_CARE: i32 = 1;

// Samples per texel.
pub const SAMPLE_COUNT_1: u32 = 0x1;

// Pipeline stages and memory accesses.
pub const PIPELINE_STAGE_COLOR_ATTACHMENT_OUTPUT: u32 = 0x400;
pub const ACCESS_COLOR_ATTACHMENT_READ: u32 = 0x80;
pub const ACCESS_COLOR_ATTACHMENT_WRITE: u32 = 0x100;

/// The subpass index that stands for everything outside the render pass.
pub const SUBPASS_EXTERNAL: u32 = 0xFFFF_FFFF;
pub const PIPELINE_BIND_POINT_GRAPHICS: i32 = 0;
pub const SUBPASS_CONTENTS_INLINE: i32 = 0;

// Images and their views.
pub const IMAGE_TYPE_2D: i32 = 1;
pub const IMAGE_VIEW_TYPE_2D: i32 = 1;
pub const IMAGE_TILING_OPTIMAL: i32 = 0;
pub const IMAGE_TILING_LINEAR: i32 = 1;
pub const IMAGE_USAGE_COLOR_ATTACHMENT: u32 = 0x10;
pub const IMAGE_USAGE_DEPTH_STENCIL_ATTACHMENT: u32 = 0x20;
pub const IMAGE_ASPECT_COLOR: u32 = 0x1;
pub const IMAGE_ASPECT_DEPTH: u32 = 0x2;
pub const COMPONENT_SWIZZLE_IDENTITY: i32 = 0;
pub const FORMAT_FEATURE_DEPTH_STENCIL_ATTACHMENT: u32 = 0x200;
pub const MEMORY_PROPERTY_DEVICE_LOCAL: u32 = 0x1;
pub const MEMORY_PROPERTY_HOST_VISIBLE: u32 = 0x2;
pub const MEMORY_PROPERTY_HOST_COHERENT: u32 = 0x4;

// Buffers and what is read from them.
pub const BUFFER_USAGE_TRANSFER_SRC: u32 = 0x1;
pub const BUFFER_USAGE_TRANSFER_DST: u32 = 0x2;
pub const BUFFER_USAGE_INDEX_BUFFER: u32 = 0x40;
pub const BUFFER_USAGE_VERTEX_BUFFER: u32 = 0x80;
pub const VERTEX_INPUT_RATE_VERTEX: i32 = 0;
pub const INDEX_TYPE_UINT32: i32 = 1;

// How an image is shared between queue families, and composed on screen.
pub const SHARING_MODE_EXCLUSIVE: i32 = 0;
pub const COMPOSITE_ALPHA_OPAQUE: u32 = 0x1;

// Queues.
pub const QUEUE_GRAPHICS: u32 = 0x1;

// Synchronization objects and command buffers.
pub const FENCE_CREATE_SIGNALED: u32 = 0x1;
pub const COMMAND_BUFFER_LEVEL_PRIMARY: i32 = 0;

/// The width of a surface's current extent by which it says that it has no
/// extent of its own and takes the one of the swap chain.
pub const UNDEFINED_EXTENT: u32 = 0xFFFF_FFFF;

/// The timeout that stands for "wait without limit".
pub const NO_TIMEOUT: u64 = 0xFFFF_FFFF_FFFF_FFFF;

/// How many frames the processor may prepare while the device still works on
/// earlier ones.
pub const MAX_FRAMES_IN_FLIGHT: usize = 3;

} // verus!
