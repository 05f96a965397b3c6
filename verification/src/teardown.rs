//! Requests that destroy lists of objects.
//!
//! Each function appends to a list of requests one request for each object
//! of a list, in the order of the objects.

use vstd::prelude::*;
use crate::command::Command;
use crate::handles::{
    CommandBuffer,
    CommandPool,
    DeviceMemory,
    Fence,
    Framebuffer,
    Image,
    ImageView,
    Semaphore,
};

verus! {

/// Appends the requests that destroy the framebuffers.
pub fn destroy_framebuffers(commands: &mut Vec<Command>, framebuffers: &Vec<Framebuffer>)
    ensures
        final(commands)@ == old(commands)@ + framebuffers@.map_values(
            |framebuffer| Command::DestroyFramebuffer { framebuffer },
        ),
{
    let ghost before = commands@;
    let mut i: usize = 0;
    while i < framebuffers.len()
        invariant
            i <= framebuffers@.len(),
            commands@.len() == before.len() + i,
            forall|j: int| 0 <= j < before.len() ==> commands@[j] == before[j],
            forall|j: int|
                0 <= j < i ==> commands@[before.len() + j] == (Command::DestroyFramebuffer {
                    framebuffer: framebuffers@[j],
                }),
        decreases framebuffers@.len() - i,
    {
        commands.push(Command::DestroyFramebuffer { framebuffer: framebuffers[i] });
        i += 1;
    }
}

/// Appends the requests that destroy the image views.
pub fn destroy_image_views(commands: &mut Vec<Command>, views: &Vec<ImageView>)
    ensures
        final(commands)@ == old(commands)@ + views@.map_values(
            |view| Command::DestroyImageView { view },
        ),
{
    let ghost before = commands@;
    let mut i: usize = 0;
    while i < views.len()
        invariant
            i <= views@.len(),
            commands@.len() == before.len() + i,
            forall|j: int| 0 <= j < before.len() ==> commands@[j] == before[j],
            forall|j: int|
                0 <= j < i ==> commands@[before.len() + j] == (Command::DestroyImageView {
                    view: views@[j],
                }),
        decreases views@.len() - i,
    {
        commands.push(Command::DestroyImageView { view: views[i] });
        i += 1;
    }
}

/// Appends the requests that destroy the images.
pub fn destroy_images(commands: &mut Vec<Command>, images: &Vec<Image>)
    ensures
        final(commands)@ == old(commands)@ + images@.map_values(
            |image| Command::DestroyImage { image },
        ),
{
    let ghost before = commands@;
    let mut i: usize = 0;
    while i < images.len()
        invariant
            i <= images@.len(),
            commands@.len() == before.len() + i,
            forall|j: int| 0 <= j < before.len() ==> commands@[j] == before[j],
            forall|j: int|
                0 <= j < i ==> commands@[before.len() + j] == (Command::DestroyImage {
                    image: images@[j],
                }),
        decreases images@.len() - i,
    {
        commands.push(Command::DestroyImage { image: images[i] });
        i += 1;
    }
}

/// Appends the requests that free the memory.
pub fn free_memories(commands: &mut Vec<Command>, memories: &Vec<DeviceMemory>)
    ensures
        final(commands)@ == old(commands)@ + memories@.map_values(
            |memory| Command::FreeMemory { memory },
        ),
{
    let ghost before = commands@;
    let mut i: usize = 0;
    while i < memories.len()
        invariant
            i <= memories@.len(),
            commands@.len() == before.len() + i,
            forall|j: int| 0 <= j < before.len() ==> commands@[j] == before[j],
            forall|j: int|
                0 <= j < i ==> commands@[before.len() + j] == (Command::FreeMemory {
                    memory: memories@[j],
                }),
        decreases memories@.len() - i,
    {
        commands.push(Command::FreeMemory { memory: memories[i] });
        i += 1;
    }
}

/// Appends the requests that destroy the semaphores.
pub fn destroy_semaphores(commands: &mut Vec<Command>, semaphores: &Vec<Semaphore>)
    ensures
        final(commands)@ == old(commands)@ + semaphores@.map_values(
            |semaphore| Command::DestroySemaphore { semaphore },
        ),
{
    let ghost before = commands@;
    let mut i: usize = 0;
    while i < semaphores.len()
        invariant
            i <= semaphores@.len(),
            commands@.len() == before.len() + i,
            forall|j: int| 0 <= j < before.len() ==> commands@[j] == before[j],
            forall|j: int|
                0 <= j < i ==> commands@[before.len() + j] == (Command::DestroySemaphore {
                    semaphore: semaphores@[j],
                }),
        decreases semaphores@.len() - i,
    {
        commands.push(Command::DestroySemaphore { semaphore: semaphores[i] });
        i += 1;
    }
}

/// Appends the requests that destroy the fences.
pub fn destroy_fences(commands: &mut Vec<Command>, fences: &Vec<Fence>)
    ensures
        final(commands)@ == old(commands)@ + fences@.map_values(
            |fence| Command::DestroyFence { fence },
        ),
{
    let ghost before = commands@;
    let mut i: usize = 0;
    while i < fences.len()
        invariant
            i <= fences@.len(),
            commands@.len() == before.len() + i,
            forall|j: int| 0 <= j < before.len() ==> commands@[j] == before[j],
            forall|j: int|
                0 <= j < i ==> commands@[before.len() + j] == (Command::DestroyFence {
                    fence: fences@[j],
                }),
        decreases fences@.len() - i,
    {
        commands.push(Command::DestroyFence { fence: fences[i] });
        i += 1;
    }
}

/// Appends the requests that give the command buffers back to their pool.
pub fn free_command_buffers(
    commands: &mut Vec<Command>,
    command_pool: CommandPool,
    command_buffers: &Vec<CommandBuffer>,
)
    ensures
        final(commands)@ == old(commands)@ + command_buffers@.map_values(
            |command_buffer| Command::FreeCommandBuffer { command_pool, command_buffer },
        ),
{
    let ghost before = commands@;
    let mut i: usize = 0;
    while i < command_buffers.len()
        invariant
            i <= command_buffers@.len(),
            commands@.len() == before.len() + i,
            forall|j: int| 0 <= j < before.len() ==> commands@[j] == before[j],
            forall|j: int|
                0 <= j < i ==> commands@[before.len() + j] == (Command::FreeCommandBuffer {
                    command_pool,
                    command_buffer: command_buffers@[j],
                }),
        decreases command_buffers@.len() - i,
    {
        commands.push(
            Command::FreeCommandBuffer { command_pool, command_buffer: command_buffers[i] },
        );
        i += 1;
    }
}

} // verus!
