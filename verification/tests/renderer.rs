use lumina_render::command::Command;
use lumina_render::constants::{
    COLOR_SPACE_SRGB_NONLINEAR, ERROR_OUT_OF_DATE_KHR, FORMAT_B8G8R8A8_SRGB, FORMAT_D32_SFLOAT,
    PRESENT_MODE_FIFO,
};
use lumina_render::device::{
    ColorSpaceKHR, DeviceInfo, Format, FormatProperties, PresentModeKHR, QueueFamily, ResultCode,
    SurfaceCapabilitiesKHR, SurfaceFormatKHR, SwapChainSupportDetails,
};
use lumina_render::extent::Extent2D;
use lumina_render::handles::{
    CommandBuffer, CommandPool, DeviceMemory, Fence, Framebuffer, Image, ImageView, RenderPass,
    Semaphore, SurfaceKHR, SwapchainKHR,
};
use lumina_render::info::{
    ClearColorValue, ClearDepthStencilValue, CommandBufferAllocateInfo, CommandBufferBeginInfo,
    Offset2D, PresentInfoKHR, Rect2D, RenderPassBeginInfo, SubmitInfo, Viewport,
};
use lumina_render::renderer::Renderer;
use lumina_render::swapchain::Swapchain;

fn device(current_extent: Extent2D) -> DeviceInfo {
    DeviceInfo {
        surface: SurfaceKHR { raw: 7 },
        command_pool: CommandPool { raw: 8 },
        swapchain_support: SwapChainSupportDetails {
            surface_formats: vec![SurfaceFormatKHR {
                format: Format { raw: FORMAT_B8G8R8A8_SRGB },
                color_space: ColorSpaceKHR { raw: COLOR_SPACE_SRGB_NONLINEAR },
            }],
            present_modes: vec![PresentModeKHR { raw: PRESENT_MODE_FIFO }],
            surface_capabilities: SurfaceCapabilitiesKHR {
                min_image_count: 2,
                max_image_count: 0,
                current_extent,
                min_image_extent: Extent2D { width: 1, height: 1 },
                max_image_extent: Extent2D { width: 4096, height: 4096 },
                current_transform: 1,
            },
        },
        queue_families: QueueFamily { graphics_family: 0, present_family: 0 },
        format_properties: vec![FormatProperties {
            format: Format { raw: FORMAT_D32_SFLOAT },
            linear_tiling_features: 0,
            optimal_tiling_features: 0x200,
        }],
    }
}

/// A ready swap chain of `count` images whose handles start at `base`.
fn swapchain(base: u64, count: u64, extent: Extent2D) -> Swapchain {
    let mut swapchain = Swapchain::new(&device(extent), Extent2D { width: 800, height: 640 }).unwrap();
    swapchain.create_swapchain(
        SwapchainKHR { raw: base },
        (0..count).map(|i| Image { raw: base + 0x100 + i }).collect(),
    );
    swapchain.create_image_views((0..count).map(|i| ImageView { raw: base + 0x200 + i }).collect());
    swapchain.create_renderpass(RenderPass { raw: base + 0x300 });
    swapchain.create_depth_images(
        (0..count).map(|i| Image { raw: base + 0x400 + i }).collect(),
        (0..count).map(|i| DeviceMemory { raw: base + 0x500 + i }).collect(),
    );
    swapchain.create_depth_resources((0..count).map(|i| ImageView { raw: base + 0x600 + i }).collect());
    swapchain.create_framebuffers((0..count).map(|i| Framebuffer { raw: base + 0x700 + i }).collect());
    swapchain.create_sync_objects(
        (0..3).map(|i| Semaphore { raw: base + 0x800 + i }).collect(),
        (0..3).map(|i| Semaphore { raw: base + 0x900 + i }).collect(),
        (0..3).map(|i| Fence { raw: base + 0xA00 + i }).collect(),
    );
    swapchain
}

fn buffers(base: u64) -> Vec<CommandBuffer> {
    (0..3).map(|i| CommandBuffer { raw: base + i }).collect()
}

fn renderer() -> Renderer {
    Renderer::new(swapchain(0x1000, 3, Extent2D { width: 800, height: 640 }), buffers(0xB0))
}

const OUT_OF_DATE: ResultCode = ResultCode { raw: ERROR_OUT_OF_DATE_KHR };

#[test]
fn a_new_renderer_is_idle() {
    let renderer = renderer();
    assert!(!renderer.is_frame_in_progress());
    assert!(!renderer.needs_recreation());
    assert_eq!(renderer.command_buffer_count(), 3);
    assert_eq!(renderer.get_swapchain_renderpass(), RenderPass { raw: 0x1300 });
    assert_eq!(renderer.swapchain().image_count(), 3);
}

#[test]
fn a_window_without_area_has_to_be_waited_for() {
    assert!(Renderer::can_create_swapchain(Extent2D { width: 800, height: 640 }));
    assert!(!Renderer::can_create_swapchain(Extent2D { width: 0, height: 640 }));
    assert!(!Renderer::can_create_swapchain(Extent2D { width: 800, height: 0 }));
    assert!(!Renderer::can_create_swapchain(Extent2D { width: 0, height: 0 }));
}

#[test]
fn one_primary_command_buffer_per_frame_in_flight() {
    let device = device(Extent2D { width: 800, height: 640 });
    assert_eq!(
        Renderer::create_command_buffers(&device),
        CommandBufferAllocateInfo {
            command_pool: CommandPool { raw: 8 },
            level: 0,
            command_buffer_count: 3,
        }
    );
}

#[test]
fn acquiring_waits_for_the_fence_of_the_current_slot() {
    let renderer = renderer();
    assert_eq!(
        renderer.acquire_commands(),
        vec![
            Command::WaitForFence { fence: Fence { raw: 0x1A00 }, timeout: u64::MAX },
            Command::AcquireNextImage {
                swapchain: SwapchainKHR { raw: 0x1000 },
                timeout: u64::MAX,
                semaphore: Semaphore { raw: 0x1800 },
            },
        ]
    );
}

#[test]
fn begin_frame_opens_the_command_buffer_of_the_slot() {
    let mut renderer = renderer();
    let begun = renderer.begin_frame(Ok((2, false)));
    assert_eq!(
        begun,
        Some((
            CommandBuffer { raw: 0xB0 },
            Command::BeginCommandBuffer {
                command_buffer: CommandBuffer { raw: 0xB0 },
                info: CommandBufferBeginInfo { flags: 0 },
            },
        ))
    );
    assert!(renderer.is_frame_in_progress());
    assert_eq!(renderer.get_frame_index(), 0);
    assert_eq!(renderer.get_current_image_index(), 2);
    assert_eq!(renderer.get_current_command_buffer(), CommandBuffer { raw: 0xB0 });
}

#[test]
fn a_suboptimal_image_still_begins_a_frame() {
    let mut renderer = renderer();
    assert_eq!(
        renderer.begin_swapchain_command_buffer(Ok((1, true))),
        Some(CommandBuffer { raw: 0xB0 })
    );
    assert!(renderer.is_frame_in_progress());
    assert!(!renderer.needs_recreation());
}

#[test]
fn end_frame_submits_and_presents() {
    let mut renderer = renderer();
    renderer.begin_frame(Ok((2, false)));
    assert_eq!(
        renderer.end_frame_commands(),
        vec![
            Command::EndCommandBuffer { command_buffer: CommandBuffer { raw: 0xB0 } },
            Command::ResetFence { fence: Fence { raw: 0x1A00 } },
            Command::QueueSubmit {
                submit: SubmitInfo {
                    wait_semaphore: Semaphore { raw: 0x1800 },
                    wait_dst_stage_mask: 0x400,
                    command_buffer: CommandBuffer { raw: 0xB0 },
                    signal_semaphore: Semaphore { raw: 0x1900 },
                },
                fence: Fence { raw: 0x1A00 },
            },
            Command::QueuePresent {
                present: PresentInfoKHR {
                    wait_semaphore: Semaphore { raw: 0x1900 },
                    swapchain: SwapchainKHR { raw: 0x1000 },
                    image_index: 2,
                },
            },
        ]
    );
    assert!(!renderer.end_frame(Ok(false), false));
    assert!(!renderer.is_frame_in_progress());
    assert!(!renderer.needs_recreation());
}

#[test]
fn begin_then_end_leaves_no_frame_and_no_leak() {
    let mut renderer = renderer();
    let mut slots = Vec::new();
    let mut handed_out = Vec::new();
    for turn in 0..10u32 {
        let image = turn % 3;
        let (command_buffer, _) = renderer.begin_frame(Ok((image, false))).unwrap();
        slots.push(renderer.get_frame_index());
        handed_out.push(command_buffer.raw);
        assert!(!renderer.end_frame(Ok(false), false));
        assert_eq!(renderer.is_frame_in_progress(), false);
        assert_eq!(renderer.command_buffer_count(), 3);
    }
    assert_eq!(slots, vec![0, 1, 2, 0, 1, 2, 0, 1, 2, 0]);
    assert_eq!(handed_out, vec![0xB0, 0xB1, 0xB2, 0xB0, 0xB1, 0xB2, 0xB0, 0xB1, 0xB2, 0xB0]);
}

#[test]
fn the_second_frame_on_an_image_waits_for_the_first() {
    let mut renderer = renderer();
    renderer.begin_frame(Ok((1, false)));
    renderer.end_frame(Ok(false), false);
    renderer.begin_frame(Ok((1, false)));
    let commands = renderer.end_frame_commands();
    assert_eq!(commands.len(), 5);
    assert_eq!(commands[0], Command::EndCommandBuffer { command_buffer: CommandBuffer { raw: 0xB1 } });
    assert_eq!(commands[1], Command::WaitForFence { fence: Fence { raw: 0x1A00 }, timeout: u64::MAX });
    assert_eq!(commands[2], Command::ResetFence { fence: Fence { raw: 0x1A01 } });
}

#[test]
fn degradation_and_resizing_ask_for_a_new_generation() {
    for (presented, resized, expected) in [
        (Ok(false), false, false),
        (Ok(true), false, true),
        (Ok(false), true, true),
        (Err(OUT_OF_DATE), false, true),
        (Err(ResultCode { raw: -4 }), false, true),
        (Ok(true), true, true),
    ] {
        let mut renderer = renderer();
        renderer.begin_frame(Ok((0, false)));
        assert_eq!(renderer.end_frame(presented, resized), expected);
        assert_eq!(renderer.needs_recreation(), expected);
        assert!(!renderer.is_frame_in_progress());
    }
}

#[test]
fn out_of_date_surface_gives_no_frame_until_recreated() {
    let mut renderer = renderer();
    assert_eq!(renderer.begin_frame(Err(OUT_OF_DATE)), None);
    assert!(!renderer.is_frame_in_progress());
    assert!(renderer.needs_recreation());
    assert!(!renderer.is_retired());
    assert_eq!(renderer.command_buffer_count(), 3);

    let device = device(Extent2D { width: 1024, height: 768 });
    let teardown = renderer.cleanup(&device);
    assert_eq!(teardown[0], Command::DeviceWaitIdle);
    assert_eq!(teardown.len(), 1 + 3 + 3 * 5 + 2 + 9);
    assert!(renderer.is_retired());
    assert!(renderer.needs_recreation());
    assert_eq!(renderer.command_buffer_count(), 0);

    renderer.recreate_swapchain(swapchain(0x2000, 2, Extent2D { width: 1024, height: 768 }), buffers(0xC0));
    assert!(!renderer.needs_recreation());
    assert!(!renderer.is_retired());
    assert_eq!(renderer.swapchain().get_swapchain_extent(), Extent2D { width: 1024, height: 768 });
    assert_eq!(renderer.swapchain().image_count(), 2);
    assert_eq!(renderer.command_buffer_count(), 3);

    let begun = renderer.begin_frame(Ok((0, false)));
    assert_eq!(begun.map(|frame| frame.0), Some(CommandBuffer { raw: 0xC0 }));
    assert!(renderer.is_frame_in_progress());
    assert_eq!(renderer.get_frame_index(), 0);
}

#[test]
fn any_failure_to_acquire_asks_for_a_new_generation() {
    let mut renderer = renderer();
    assert_eq!(renderer.begin_swapchain_command_buffer(Err(ResultCode { raw: -4 })), None);
    assert!(renderer.needs_recreation());
}

#[test]
fn recreation_after_a_degraded_frame_starts_over() {
    let mut renderer = renderer();
    renderer.begin_frame(Ok((0, false)));
    assert!(renderer.end_frame(Ok(true), false));
    renderer.cleanup(&device(Extent2D { width: 640, height: 480 }));
    renderer.recreate_swapchain(swapchain(0x3000, 3, Extent2D { width: 640, height: 480 }), buffers(0xD0));
    assert_eq!(
        renderer.acquire_commands()[0],
        Command::WaitForFence { fence: Fence { raw: 0x3A00 }, timeout: u64::MAX }
    );
    assert_eq!(
        renderer.begin_swapchain_command_buffer(Ok((1, false))),
        Some(CommandBuffer { raw: 0xD0 })
    );
}

fn pass(
    command_buffer: u64,
    render_pass: u64,
    framebuffer: u64,
    width: u32,
    height: u32,
    color: ClearColorValue,
) -> Vec<Command> {
    let area = Rect2D { offset: Offset2D { x: 0, y: 0 }, extent: Extent2D { width, height } };
    vec![
        Command::BeginRenderPass {
            command_buffer: CommandBuffer { raw: command_buffer },
            pass: RenderPassBeginInfo {
                render_pass: RenderPass { raw: render_pass },
                framebuffer: Framebuffer { raw: framebuffer },
                render_area: area,
                clear_color: color,
                clear_depth_stencil: ClearDepthStencilValue { depth: 1.0f32.to_bits(), stencil: 0 },
            },
            contents: 0,
        },
        Command::SetViewport {
            command_buffer: CommandBuffer { raw: command_buffer },
            viewport: Viewport {
                x: 0,
                y: 0,
                width,
                height,
                min_depth: 0.0f32.to_bits(),
                max_depth: 1.0f32.to_bits(),
            },
        },
        Command::SetScissor { command_buffer: CommandBuffer { raw: command_buffer }, scissor: area },
    ]
}

#[test]
fn the_swapchain_pass_clears_to_dark_gray() {
    let mut renderer = renderer();
    let (command_buffer, _) = renderer.begin_frame(Ok((2, false))).unwrap();
    let gray = ClearColorValue {
        r: 0.1f32.to_bits(),
        g: 0.1f32.to_bits(),
        b: 0.1f32.to_bits(),
        a: 1.0f32.to_bits(),
    };
    assert_eq!(
        renderer.begin_swapchain_renderpass(command_buffer),
        pass(0xB0, 0x1300, 0x1702, 800, 640, gray)
    );
    assert_eq!(
        renderer.end_swapchain_renderpass(command_buffer),
        Command::EndRenderPass { command_buffer: CommandBuffer { raw: 0xB0 } }
    );
}

#[test]
fn a_custom_pass_takes_the_callers_framebuffer_and_clears_to_blue() {
    let mut renderer = renderer();
    let (command_buffer, _) = renderer.begin_frame(Ok((0, false))).unwrap();
    let blue = ClearColorValue {
        r: 0.0f32.to_bits(),
        g: 0.0f32.to_bits(),
        b: 1.0f32.to_bits(),
        a: 1.0f32.to_bits(),
    };
    assert_eq!(
        renderer.begin_custom_renderpass(
            command_buffer,
            Extent2D { width: 256, height: 128 },
            Framebuffer { raw: 0xFB },
        ),
        pass(0xB0, 0x1300, 0xFB, 256, 128, blue)
    );
}

#[test]
fn command_buffers_go_back_to_the_pool() {
    let mut renderer = renderer();
    let device = device(Extent2D { width: 800, height: 640 });
    let freed: Vec<Command> = (0..3)
        .map(|i| Command::FreeCommandBuffer {
            command_pool: CommandPool { raw: 8 },
            command_buffer: CommandBuffer { raw: 0xB0 + i },
        })
        .collect();
    assert_eq!(renderer.free_command_buffers(&device), freed);
    let cleanup = renderer.cleanup(&device);
    assert_eq!(cleanup[0], Command::DeviceWaitIdle);
    assert_eq!(cleanup[1..4].to_vec(), freed);
    assert_eq!(cleanup[4..].to_vec(), swapchain(0x1000, 3, Extent2D { width: 800, height: 640 }).cleanup());
    assert_eq!(cleanup.len(), 1 + 3 + 3 * 5 + 2 + 9);
    assert!(renderer.is_retired());
    assert_eq!(renderer.free_command_buffers(&device), Vec::new());
    assert_eq!(renderer.cleanup(&device), vec![Command::DeviceWaitIdle]);
}

#[test]
fn turns_with_recreations_keep_three_command_buffers() {
    let mut renderer = renderer();
    let device = device(Extent2D { width: 800, height: 640 });
    let outcomes: [(Result<(u32, bool), ResultCode>, Result<bool, ResultCode>, bool); 6] = [
        (Ok((0, false)), Ok(false), false),
        (Err(OUT_OF_DATE), Ok(false), false),
        (Ok((1, false)), Ok(true), false),
        (Ok((1, true)), Err(OUT_OF_DATE), false),
        (Ok((0, false)), Ok(false), true),
        (Ok((1, false)), Ok(false), false),
    ];
    let mut generation = 0x2000;
    let mut recreations = 0;
    for (acquired, presented, resized) in outcomes {
        let begun = renderer.begin_frame(acquired);
        assert_eq!(begun.is_some(), acquired.is_ok());
        if begun.is_some() {
            renderer.end_frame(presented, resized);
        }
        assert!(!renderer.is_frame_in_progress());
        if renderer.needs_recreation() {
            renderer.cleanup(&device);
            assert_eq!(renderer.command_buffer_count(), 0);
            renderer.recreate_swapchain(
                swapchain(generation, 2, Extent2D { width: 800, height: 640 }),
                buffers(generation + 0xB0),
            );
            generation += 0x1000;
            recreations += 1;
        }
        assert_eq!(renderer.command_buffer_count(), 3);
        assert!(!renderer.needs_recreation());
    }
    assert_eq!(recreations, 4);
}

#[test]
fn the_requests_of_a_frame_keep_their_order() {
    let mut renderer = renderer();
    // The first frame draws to image 1 in slot 0, the second to image 0 in slot 1.
    for image in [1u32, 0] {
        renderer.begin_frame(Ok((image, false)));
        renderer.end_frame(Ok(false), false);
    }
    // The third frame draws to image 1 again, in slot 2.
    let mut commands = renderer.acquire_commands();
    let (command_buffer, open) = renderer.begin_frame(Ok((1, false))).unwrap();
    commands.push(open);
    commands.extend(renderer.end_frame_commands());
    let slot = 2;
    assert_eq!(command_buffer, CommandBuffer { raw: 0xB0 + slot });
    assert_eq!(
        commands,
        vec![
            Command::WaitForFence { fence: Fence { raw: 0x1A00 + slot }, timeout: u64::MAX },
            Command::AcquireNextImage {
                swapchain: SwapchainKHR { raw: 0x1000 },
                timeout: u64::MAX,
                semaphore: Semaphore { raw: 0x1800 + slot },
            },
            Command::BeginCommandBuffer {
                command_buffer,
                info: CommandBufferBeginInfo { flags: 0 },
            },
            Command::EndCommandBuffer { command_buffer },
            Command::WaitForFence { fence: Fence { raw: 0x1A00 }, timeout: u64::MAX },
            Command::ResetFence { fence: Fence { raw: 0x1A00 + slot } },
            Command::QueueSubmit {
                submit: SubmitInfo {
                    wait_semaphore: Semaphore { raw: 0x1800 + slot },
                    wait_dst_stage_mask: 0x400,
                    command_buffer,
                    signal_semaphore: Semaphore { raw: 0x1900 + slot },
                },
                fence: Fence { raw: 0x1A00 + slot },
            },
            Command::QueuePresent {
                present: PresentInfoKHR {
                    wait_semaphore: Semaphore { raw: 0x1900 + slot },
                    swapchain: SwapchainKHR { raw: 0x1000 },
                    image_index: 1,
                },
            },
        ]
    );
}
