//! The requests that the engine makes of the platform during a frame.
//!
//! The engine returns them in the order in which they are to be performed.
//! Two of them have an answer that decides how the frame goes on: acquiring
//! an image and presenting one. The caller hands those answers back.

use vstd::prelude::*;
use crate::handles::{
    Buffer,
    CommandBuffer,
    CommandPool,
    DeviceMemory,
    Fence,
    Framebuffer,
    Image,
    ImageView,
    RenderPass,
    Semaphore,
    SwapchainKHR,
};
use crate::info::{
    CommandBufferBeginInfo,
    PresentInfoKHR,
    Rect2D,
    RenderPassBeginInfo,
    SubmitInfo,
    Viewport,
};

verus! {

#[derive(Clone, Copy, PartialEq, Eq, Structural, Debug)]
pub enum Command {
    /// Block until the fence is signaled, or until the timeout has passed.
    WaitForFence { fence: Fence, timeout: u64 },
    /// Ask for the next presentable image; the semaphore is signaled once the
    /// image can be drawn to.
    AcquireNextImage { swapchain: SwapchainKHR, timeout: u64, semaphore: Semaphore },
    /// Open a command buffer for recording.
    BeginCommandBuffer { command_buffer: CommandBuffer, info: CommandBufferBeginInfo },
    /// Close a command buffer.
    EndCommandBuffer { command_buffer: CommandBuffer },
    /// Put a fence back to unsignaled.
    ResetFence { fence: Fence },
    /// Hand work to the graphics queue; the fence is signaled when it is done.
    QueueSubmit { submit: SubmitInfo, fence: Fence },
    /// Hand an image to the presentation queue.
    QueuePresent { present: PresentInfoKHR },
    /// Record the start of a render pass whose commands follow inline.
    BeginRenderPass { command_buffer: CommandBuffer, pass: RenderPassBeginInfo, contents: i32 },
    /// Record the viewport at position 0.
    SetViewport { command_buffer: CommandBuffer, viewport: Viewport },
    /// Record the scissor rectangle at position 0.
    SetScissor { command_buffer: CommandBuffer, scissor: Rect2D },
    /// Record the end of the render pass.
    EndRenderPass { command_buffer: CommandBuffer },
    /// Record which buffer the vertices are read from, at the given binding.
    BindVertexBuffer { command_buffer: CommandBuffer, first_binding: u32, buffer: Buffer, offset: u64 },
    /// Record which buffer the indices are read from.
    BindIndexBuffer { command_buffer: CommandBuffer, buffer: Buffer, offset: u64, index_type: i32 },
    /// Record a draw of vertices in the order of the vertex buffer.
    Draw {
        command_buffer: CommandBuffer,
        vertex_count: u32,
        instance_count: u32,
        first_vertex: u32,
        first_instance: u32,
    },
    /// Record a draw of vertices in the order of the index buffer.
    DrawIndexed {
        command_buffer: CommandBuffer,
        index_count: u32,
        instance_count: u32,
        first_index: u32,
        vertex_offset: i32,
        first_instance: u32,
    },
    /// Block until the device has finished all work.
    DeviceWaitIdle,
    FreeCommandBuffer { command_pool: CommandPool, command_buffer: CommandBuffer },
    DestroyFramebuffer { framebuffer: Framebuffer },
    DestroyImageView { view: ImageView },
    DestroyImage { image: Image },
    FreeMemory { memory: DeviceMemory },
    DestroyRenderPass { renderpass: RenderPass },
    DestroySwapchain { swapchain: SwapchainKHR },
    DestroySemaphore { semaphore: Semaphore },
    DestroyFence { fence: Fence },
}

} // verus!
