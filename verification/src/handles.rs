//! Handles of platform objects.
//!
//! A handle is the 64-bit number by which the platform names an object. The
//! engine never looks inside one: it stores the handles that it was given and
//! hands them back in the requests it describes. Each kind of object has a
//! type of its own, so that a fence cannot stand where a semaphore is meant.

use vstd::prelude::*;

verus! {

/// The presentation surface of a window.
#[derive(Clone, Copy, PartialEq, Eq, Structural, Debug)]
pub struct SurfaceKHR {
    pub raw: u64,
}

/// A chain of presentable images bound to a surface.
#[derive(Clone, Copy, PartialEq, Eq, Structural, Debug)]
pub struct SwapchainKHR {
    pub raw: u64,
}

/// An image, either one of the presentable images or a depth attachment.
#[derive(Clone, Copy, PartialEq, Eq, Structural, Debug)]
pub struct Image {
    pub raw: u64,
}

/// A view onto an image.
#[derive(Clone, Copy, PartialEq, Eq, Structural, Debug)]
pub struct ImageView {
    pub raw: u64,
}

/// The memory that backs an image.
#[derive(Clone, Copy, PartialEq, Eq, Structural, Debug)]
pub struct DeviceMemory {
    pub raw: u64,
}

/// A buffer of vertices or of indices.
#[derive(Clone, Copy, PartialEq, Eq, Structural, Debug)]
pub struct Buffer {
    pub raw: u64,
}

/// A compiled render pass.
#[derive(Clone, Copy, PartialEq, Eq, Structural, Debug)]
pub struct RenderPass {
    pub raw: u64,
}

/// The attachments of one render target.
#[derive(Clone, Copy, PartialEq, Eq, Structural, Debug)]
pub struct Framebuffer {
    pub raw: u64,
}

/// A signal between queue operations, never seen by the processor.
#[derive(Clone, Copy, PartialEq, Eq, Structural, Debug)]
pub struct Semaphore {
    pub raw: u64,
}

/// A completion signal that the processor can wait for.
#[derive(Clone, Copy, PartialEq, Eq, Structural, Debug)]
pub struct Fence {
    pub raw: u64,
}

/// A buffer into which commands are recorded.
#[derive(Clone, Copy, PartialEq, Eq, Structural, Debug)]
pub struct CommandBuffer {
    pub raw: u64,
}

/// The pool from which command buffers are allocated.
#[derive(Clone, Copy, PartialEq, Eq, Structural, Debug)]
pub struct CommandPool {
    pub raw: u64,
}

impl SwapchainKHR {
    /// The handle that names no swap chain.
    pub open spec fn spec_null() -> SwapchainKHR {
        SwapchainKHR { raw: 0 }
    }

    #[verifier::when_used_as_spec(spec_null)]
    pub fn null() -> (r: SwapchainKHR)
        ensures
            r == Self::spec_null(),
    {
        SwapchainKHR { raw: 0 }
    }
}

} // verus!
