use lumina_render::command::Command;
use lumina_render::constants::{ERROR_OUT_OF_DATE_KHR, NO_TIMEOUT};
use lumina_render::device::ResultCode;
use lumina_render::handles::{CommandBuffer, Fence, Semaphore, SwapchainKHR};
use lumina_render::info::{PresentInfoKHR, SubmitInfo};
use lumina_render::sync::{classify, FrameSynchronizer, PresentationError};

const CHAIN: SwapchainKHR = SwapchainKHR { raw: 0x5C };

fn synchronizer(image_count: usize) -> FrameSynchronizer {
    FrameSynchronizer::new(
        vec![Semaphore { raw: 10 }, Semaphore { raw: 11 }, Semaphore { raw: 12 }],
        vec![Semaphore { raw: 20 }, Semaphore { raw: 21 }, Semaphore { raw: 22 }],
        vec![Fence { raw: 30 }, Fence { raw: 31 }, Fence { raw: 32 }],
        image_count,
    )
}

fn wait(fence: u64) -> Command {
    Command::WaitForFence { fence: Fence { raw: fence }, timeout: u64::MAX }
}

fn submit(slot: u64, buffer: u64) -> Command {
    Command::QueueSubmit {
        submit: SubmitInfo {
            wait_semaphore: Semaphore { raw: 10 + slot },
            wait_dst_stage_mask: 0x400,
            command_buffer: CommandBuffer { raw: buffer },
            signal_semaphore: Semaphore { raw: 20 + slot },
        },
        fence: Fence { raw: 30 + slot },
    }
}

fn present(slot: u64, image_index: u32) -> Command {
    Command::QueuePresent {
        present: PresentInfoKHR {
            wait_semaphore: Semaphore { raw: 20 + slot },
            swapchain: CHAIN,
            image_index,
        },
    }
}

fn reset(slot: u64) -> Command {
    Command::ResetFence { fence: Fence { raw: 30 + slot } }
}

#[test]
fn a_fresh_synchronizer_starts_at_the_first_slot() {
    let sync = synchronizer(3);
    assert_eq!(sync.current_frame(), 0);
    assert_eq!(sync.image_count(), 3);
    assert_eq!(NO_TIMEOUT, u64::MAX);
}

#[test]
fn acquiring_waits_for_the_fence_of_the_slot_first() {
    let sync = synchronizer(3);
    assert_eq!(
        sync.acquire_commands(CHAIN),
        vec![
            wait(30),
            Command::AcquireNextImage {
                swapchain: CHAIN,
                timeout: u64::MAX,
                semaphore: Semaphore { raw: 10 },
            },
        ]
    );
}

#[test]
fn acquire_results_are_passed_on_or_classified() {
    let mut sync = synchronizer(3);
    assert_eq!(sync.acquire_next_image(Ok((2, false))), Ok((2, false)));
    assert_eq!(sync.acquire_next_image(Ok((1, true))), Ok((1, true)));
    assert_eq!(
        sync.acquire_next_image(Err(ResultCode { raw: ERROR_OUT_OF_DATE_KHR })),
        Err(PresentationError::SurfaceOutOfDate)
    );
    assert_eq!(
        sync.acquire_next_image(Err(ResultCode { raw: -4 })),
        Err(PresentationError::Failed(ResultCode { raw: -4 }))
    );
    assert_eq!(sync.current_frame(), 0);
}

#[test]
fn failure_codes_are_classified() {
    assert_eq!(classify(ResultCode { raw: -1_000_001_004 }), PresentationError::SurfaceOutOfDate);
    assert_eq!(
        classify(ResultCode { raw: -1_000_000_000 }),
        PresentationError::Failed(ResultCode { raw: -1_000_000_000 })
    );
    assert_eq!(classify(ResultCode { raw: 0 }), PresentationError::Failed(ResultCode { raw: 0 }));
}

#[test]
fn first_use_of_an_image_waits_for_nothing() {
    let sync = synchronizer(3);
    assert_eq!(
        sync.submit_commands(CommandBuffer { raw: 77 }, 1, CHAIN),
        vec![reset(0), submit(0, 77), present(0, 1)]
    );
}

#[test]
fn slots_cycle_with_each_submission() {
    let mut sync = synchronizer(3);
    let mut seen = Vec::new();
    for image in [0u32, 1, 2, 0, 1, 2, 0] {
        seen.push(sync.current_frame());
        assert_eq!(sync.submit_command_buffers(image, Ok(false)), Ok(false));
    }
    assert_eq!(seen, vec![0, 1, 2, 0, 1, 2, 0]);
    assert_eq!(sync.current_frame(), 1);
}

#[test]
fn presentation_results_are_surfaced() {
    let mut sync = synchronizer(2);
    assert_eq!(sync.submit_command_buffers(0, Ok(true)), Ok(true));
    assert_eq!(
        sync.submit_command_buffers(1, Err(ResultCode { raw: ERROR_OUT_OF_DATE_KHR })),
        Err(PresentationError::SurfaceOutOfDate)
    );
    assert_eq!(
        sync.submit_command_buffers(0, Err(ResultCode { raw: -4 })),
        Err(PresentationError::Failed(ResultCode { raw: -4 }))
    );
    assert_eq!(sync.current_frame(), 0);
}

#[test]
fn reuse_of_an_image_waits_for_the_frame_that_used_it() {
    let mut sync = synchronizer(2);
    // Slot 0 draws to image 1, slot 1 to image 0.
    sync.submit_command_buffers(1, Ok(false)).unwrap();
    sync.submit_command_buffers(0, Ok(false)).unwrap();
    // Slot 2 draws to image 1 again: it waits for the fence of slot 0.
    assert_eq!(sync.current_frame(), 2);
    assert_eq!(
        sync.submit_commands(CommandBuffer { raw: 5 }, 1, CHAIN),
        vec![wait(30), reset(2), submit(2, 5), present(2, 1)]
    );
    sync.submit_command_buffers(1, Ok(false)).unwrap();
    // Slot 0 draws to image 0: it waits for the fence of slot 1.
    assert_eq!(
        sync.submit_commands(CommandBuffer { raw: 6 }, 0, CHAIN),
        vec![wait(31), reset(0), submit(0, 6), present(0, 0)]
    );
    // Image 1 is now guarded by the fence of slot 2.
    assert_eq!(
        sync.submit_commands(CommandBuffer { raw: 6 }, 1, CHAIN),
        vec![wait(32), reset(0), submit(0, 6), present(0, 1)]
    );
}

#[test]
fn an_image_may_wait_for_the_fence_of_its_own_slot() {
    let mut sync = synchronizer(1);
    sync.submit_command_buffers(0, Ok(false)).unwrap();
    sync.submit_command_buffers(0, Ok(false)).unwrap();
    sync.submit_command_buffers(0, Ok(false)).unwrap();
    assert_eq!(sync.current_frame(), 0);
    assert_eq!(
        sync.submit_commands(CommandBuffer { raw: 9 }, 0, CHAIN),
        vec![wait(32), reset(0), submit(0, 9), present(0, 0)]
    );
}

#[test]
fn cleanup_appends_semaphores_then_fences() {
    let sync = synchronizer(2);
    let mut commands = vec![Command::DeviceWaitIdle];
    sync.cleanup(&mut commands);
    assert_eq!(
        commands,
        vec![
            Command::DeviceWaitIdle,
            Command::DestroySemaphore { semaphore: Semaphore { raw: 10 } },
            Command::DestroySemaphore { semaphore: Semaphore { raw: 11 } },
            Command::DestroySemaphore { semaphore: Semaphore { raw: 12 } },
            Command::DestroySemaphore { semaphore: Semaphore { raw: 20 } },
            Command::DestroySemaphore { semaphore: Semaphore { raw: 21 } },
            Command::DestroySemaphore { semaphore: Semaphore { raw: 22 } },
            Command::DestroyFence { fence: Fence { raw: 30 } },
            Command::DestroyFence { fence: Fence { raw: 31 } },
            Command::DestroyFence { fence: Fence { raw: 32 } },
        ]
    );
}
