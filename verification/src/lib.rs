//! Frame-presentation core of a real-time renderer.
//!
//! The crate owns the bookkeeping of a swap-image chain, the per-frame
//! synchronization protocol and the begin-frame / end-frame state machine.
//! It never touches a graphics device: every function takes what the platform
//! reported as plain values and returns a description of what to ask of it
//! next. The caller performs those requests and hands the answers back.
//!
//! A generation of the swap chain is chosen by `Swapchain::new` from what the
//! device and the surface report, and built stage by stage: at each stage the
//! swap chain describes the objects to create and takes their handles. A
//! `Renderer` on a ready swap chain then runs the frames:
//!
//! 1. `Renderer::acquire_commands` says how to acquire an image;
//! 2. `Renderer::begin_frame` takes what came of it and, with an image, hands
//!    out the command buffer of the frame;
//! 3. `Renderer::end_frame_commands` says how to submit and present;
//! 4. `Renderer::end_frame` takes what came of that.
//!
//! Where the surface no longer fits, the renderer asks for a new generation:
//! `Renderer::cleanup` says how to give the old one back, and
//! `Renderer::recreate_swapchain` takes the new one.
//!
//! What is drawn in a frame is recorded by the caller into the command
//! buffer that `begin_frame` hands out; a `Mesh` says which requests bind
//! and draw its buffers.
//!
//! The contracts are stated over mathematical views of the state. The laws
//! that relate several steps are proof functions beside the types they speak
//! of: they start with `law_`.

pub mod camera;
pub mod command;
pub mod constants;
pub mod describe;
pub mod device;
pub mod extent;
pub mod handles;
pub mod info;
pub mod mesh;
pub mod renderer;
pub mod selection;
pub mod swapchain;
pub mod sync;
pub mod teardown;
