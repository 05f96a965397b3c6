use ash::vk;
use lumina_render::constants::{
    COLOR_SPACE_SRGB_NONLINEAR, COMPOSITE_ALPHA_OPAQUE, FORMAT_B8G8R8A8_SRGB,
    FORMAT_D24_UNORM_S8_UINT, FORMAT_D32_SFLOAT, FORMAT_D32_SFLOAT_S8_UINT,
    FORMAT_FEATURE_DEPTH_STENCIL_ATTACHMENT, IMAGE_TILING_LINEAR, IMAGE_TILING_OPTIMAL,
    IMAGE_USAGE_COLOR_ATTACHMENT, PRESENT_MODE_FIFO, PRESENT_MODE_MAILBOX, UNDEFINED_EXTENT,
};
use lumina_render::device::{
    find_memory_type, find_queue_families, ColorSpaceKHR, DeviceInfo, Format, FormatProperties,
    MemoryType, PresentModeKHR, QueueFamily, QueueFamilyProperties, SurfaceCapabilitiesKHR,
    SurfaceFormatKHR, SwapChainSupportDetails,
};
use lumina_render::extent::Extent2D;
use lumina_render::handles::{CommandPool, SurfaceKHR, SwapchainKHR};
use lumina_render::info::ImageSharing;
use lumina_render::selection::{
    choose_image_count, choose_image_sharing, choose_swap_extent, choose_swap_present_mode,
    choose_swap_surface_format, ConstructionError,
};
use lumina_render::swapchain::{Swapchain, SwapchainStage};

const FORMAT_R8G8B8A8_UNORM: i32 = vk::Format::R8G8B8A8_UNORM.as_raw();
const FORMAT_B8G8R8A8_UNORM: i32 = vk::Format::B8G8R8A8_UNORM.as_raw();
const PRESENT_MODE_IMMEDIATE: i32 = vk::PresentModeKHR::IMMEDIATE.as_raw();
const PRESENT_MODE_FIFO_RELAXED: i32 = vk::PresentModeKHR::FIFO_RELAXED.as_raw();

fn surface_format(format: i32, color_space: i32) -> SurfaceFormatKHR {
    SurfaceFormatKHR { format: Format { raw: format }, color_space: ColorSpaceKHR { raw: color_space } }
}

fn mode(raw: i32) -> PresentModeKHR {
    PresentModeKHR { raw }
}

fn extent(width: u32, height: u32) -> Extent2D {
    Extent2D { width, height }
}

fn capabilities(min_count: u32, max_count: u32, current: Extent2D) -> SurfaceCapabilitiesKHR {
    SurfaceCapabilitiesKHR {
        min_image_count: min_count,
        max_image_count: max_count,
        current_extent: current,
        min_image_extent: extent(64, 32),
        max_image_extent: extent(4096, 2160),
        current_transform: 1,
    }
}

fn depth_support(format: i32, linear: u32, optimal: u32) -> FormatProperties {
    FormatProperties {
        format: Format { raw: format },
        linear_tiling_features: linear,
        optimal_tiling_features: optimal,
    }
}

fn device(
    formats: Vec<SurfaceFormatKHR>,
    modes: Vec<PresentModeKHR>,
    capabilities: SurfaceCapabilitiesKHR,
    depth: Vec<FormatProperties>,
) -> DeviceInfo {
    DeviceInfo {
        surface: SurfaceKHR { raw: 0x51 },
        command_pool: CommandPool { raw: 0xC0 },
        swapchain_support: SwapChainSupportDetails {
            surface_formats: formats,
            present_modes: modes,
            surface_capabilities: capabilities,
        },
        queue_families: QueueFamily { graphics_family: 0, present_family: 0 },
        format_properties: depth,
    }
}

#[test]
fn srgb_is_preferred_over_unorm() {
    let formats = vec![
        surface_format(FORMAT_B8G8R8A8_SRGB, COLOR_SPACE_SRGB_NONLINEAR),
        surface_format(FORMAT_R8G8B8A8_UNORM, COLOR_SPACE_SRGB_NONLINEAR),
    ];
    assert_eq!(
        choose_swap_surface_format(&formats),
        Some(surface_format(FORMAT_B8G8R8A8_SRGB, COLOR_SPACE_SRGB_NONLINEAR))
    );
}

#[test]
fn srgb_is_found_behind_other_formats() {
    let formats = vec![
        surface_format(FORMAT_R8G8B8A8_UNORM, COLOR_SPACE_SRGB_NONLINEAR),
        surface_format(FORMAT_B8G8R8A8_UNORM, COLOR_SPACE_SRGB_NONLINEAR),
        surface_format(FORMAT_B8G8R8A8_SRGB, COLOR_SPACE_SRGB_NONLINEAR),
    ];
    assert_eq!(
        choose_swap_surface_format(&formats),
        Some(surface_format(50, 0))
    );
}

#[test]
fn first_format_is_the_fallback() {
    let formats = vec![
        surface_format(FORMAT_R8G8B8A8_UNORM, COLOR_SPACE_SRGB_NONLINEAR),
        surface_format(FORMAT_B8G8R8A8_UNORM, COLOR_SPACE_SRGB_NONLINEAR),
    ];
    assert_eq!(
        choose_swap_surface_format(&formats),
        Some(surface_format(FORMAT_R8G8B8A8_UNORM, COLOR_SPACE_SRGB_NONLINEAR))
    );
}

#[test]
fn srgb_in_another_color_space_is_not_preferred() {
    let formats = vec![
        surface_format(FORMAT_R8G8B8A8_UNORM, COLOR_SPACE_SRGB_NONLINEAR),
        surface_format(FORMAT_B8G8R8A8_SRGB, 1_000_104_001),
    ];
    assert_eq!(
        choose_swap_surface_format(&formats),
        Some(surface_format(FORMAT_R8G8B8A8_UNORM, COLOR_SPACE_SRGB_NONLINEAR))
    );
}

#[test]
fn no_format_gives_none() {
    assert_eq!(choose_swap_surface_format(&Vec::new()), None);
}

#[test]
fn fifo_alone_is_chosen() {
    let modes = vec![mode(PRESENT_MODE_FIFO)];
    assert_eq!(choose_swap_present_mode(&modes), Some(mode(PRESENT_MODE_FIFO)));
}

#[test]
fn mailbox_is_preferred_wherever_it_stands() {
    let modes = vec![mode(PRESENT_MODE_FIFO), mode(PRESENT_MODE_IMMEDIATE), mode(PRESENT_MODE_MAILBOX)];
    assert_eq!(choose_swap_present_mode(&modes), Some(mode(1)));
}

#[test]
fn fifo_is_chosen_without_mailbox() {
    let modes = vec![mode(PRESENT_MODE_IMMEDIATE), mode(PRESENT_MODE_FIFO_RELAXED), mode(PRESENT_MODE_FIFO)];
    assert_eq!(choose_swap_present_mode(&modes), Some(mode(2)));
}

#[test]
fn no_mode_outside_the_reported_ones_is_chosen() {
    assert_eq!(choose_swap_present_mode(&vec![mode(PRESENT_MODE_IMMEDIATE)]), None);
    assert_eq!(choose_swap_present_mode(&Vec::new()), None);
}

#[test]
fn unbounded_maximum_gives_one_more_than_minimum() {
    let caps = capabilities(2, 0, extent(800, 600));
    assert_eq!(choose_image_count(&caps), 3);
}

#[test]
fn image_count_is_capped_by_the_maximum() {
    assert_eq!(choose_image_count(&capabilities(2, 2, extent(800, 600))), 2);
    assert_eq!(choose_image_count(&capabilities(2, 3, extent(800, 600))), 3);
    assert_eq!(choose_image_count(&capabilities(2, 8, extent(800, 600))), 3);
    assert_eq!(choose_image_count(&capabilities(u32::MAX, u32::MAX, extent(800, 600))), u32::MAX);
    assert_eq!(choose_image_count(&capabilities(u32::MAX - 1, 0, extent(800, 600))), u32::MAX);
}

#[test]
fn definite_extent_is_taken_verbatim() {
    let caps = capabilities(2, 0, extent(800, 600));
    assert_eq!(choose_swap_extent(extent(640, 480), &caps), extent(800, 600));
}

#[test]
fn definite_extent_is_taken_even_outside_the_limits() {
    let caps = capabilities(2, 0, extent(8000, 6000));
    assert_eq!(choose_swap_extent(extent(640, 480), &caps), extent(8000, 6000));
}

#[test]
fn window_extent_is_clamped_to_the_limits() {
    let caps = capabilities(2, 0, extent(UNDEFINED_EXTENT, UNDEFINED_EXTENT));
    assert_eq!(choose_swap_extent(extent(640, 480), &caps), extent(640, 480));
    assert_eq!(choose_swap_extent(extent(5000, 480), &caps), extent(4096, 480));
    assert_eq!(choose_swap_extent(extent(640, 3000), &caps), extent(640, 2160));
    assert_eq!(choose_swap_extent(extent(10, 10), &caps), extent(64, 32));
    assert_eq!(choose_swap_extent(extent(64, 2160), &caps), extent(64, 2160));
    assert_eq!(choose_swap_extent(extent(0, u32::MAX), &caps), extent(64, 2160));
}

#[test]
fn only_the_width_marks_an_undefined_extent() {
    let caps = capabilities(2, 0, extent(800, UNDEFINED_EXTENT));
    assert_eq!(choose_swap_extent(extent(640, 480), &caps), extent(800, UNDEFINED_EXTENT));
    let caps = capabilities(2, 0, extent(UNDEFINED_EXTENT, 600));
    assert_eq!(choose_swap_extent(extent(640, 480), &caps), extent(640, 480));
}

#[test]
fn capabilities_say_whether_they_can_be_selected_from() {
    assert!(capabilities(2, 0, extent(800, 600)).is_selectable());
    assert!(!capabilities(u32::MAX, 0, extent(800, 600)).is_selectable());
    assert!(capabilities(u32::MAX, 1, extent(800, 600)).is_selectable());
    let mut crossed = capabilities(2, 0, extent(UNDEFINED_EXTENT, UNDEFINED_EXTENT));
    crossed.min_image_extent = extent(100, 100);
    crossed.max_image_extent = extent(50, 200);
    assert!(!crossed.is_selectable());
    crossed.current_extent = extent(70, 70);
    assert!(crossed.is_selectable());
}

#[test]
fn families_decide_the_sharing() {
    assert_eq!(
        choose_image_sharing(QueueFamily { graphics_family: 0, present_family: 2 }),
        ImageSharing::Concurrent { graphics_family: 0, present_family: 2 }
    );
    assert_eq!(
        choose_image_sharing(QueueFamily { graphics_family: 1, present_family: 1 }),
        ImageSharing::Exclusive
    );
}

#[test]
fn format_support_goes_by_tiling_and_features() {
    let d = device(
        Vec::new(),
        Vec::new(),
        capabilities(2, 0, extent(800, 600)),
        vec![
            depth_support(FORMAT_D32_SFLOAT, 0x200, 0x001),
            depth_support(FORMAT_D24_UNORM_S8_UINT, 0, 0x201),
        ],
    );
    let depth = FORMAT_FEATURE_DEPTH_STENCIL_ATTACHMENT;
    assert!(d.supports(Format { raw: FORMAT_D32_SFLOAT }, IMAGE_TILING_LINEAR, depth));
    assert!(!d.supports(Format { raw: FORMAT_D32_SFLOAT }, IMAGE_TILING_OPTIMAL, depth));
    assert!(d.supports(Format { raw: FORMAT_D24_UNORM_S8_UINT }, IMAGE_TILING_OPTIMAL, depth));
    assert!(d.supports(Format { raw: FORMAT_D24_UNORM_S8_UINT }, IMAGE_TILING_OPTIMAL, 0x201));
    assert!(!d.supports(Format { raw: FORMAT_D24_UNORM_S8_UINT }, IMAGE_TILING_OPTIMAL, 0x203));
    assert!(!d.supports(Format { raw: FORMAT_D24_UNORM_S8_UINT }, 7, depth));
    assert!(!d.supports(Format { raw: FORMAT_D32_SFLOAT_S8_UINT }, IMAGE_TILING_OPTIMAL, depth));
    let candidates = vec![
        Format { raw: FORMAT_D32_SFLOAT_S8_UINT },
        Format { raw: FORMAT_D32_SFLOAT },
        Format { raw: FORMAT_D24_UNORM_S8_UINT },
    ];
    assert_eq!(
        d.find_support_format(&candidates, IMAGE_TILING_OPTIMAL, depth),
        Some(Format { raw: FORMAT_D24_UNORM_S8_UINT })
    );
    assert_eq!(
        d.find_support_format(&candidates, IMAGE_TILING_LINEAR, depth),
        Some(Format { raw: FORMAT_D32_SFLOAT })
    );
    assert_eq!(d.find_support_format(&candidates, IMAGE_TILING_OPTIMAL, 0x400), None);
    assert_eq!(d.find_support_format(&Vec::new(), IMAGE_TILING_OPTIMAL, depth), None);
}

#[test]
fn depth_format_goes_by_precedence() {
    let all = device(
        Vec::new(),
        Vec::new(),
        capabilities(2, 0, extent(800, 600)),
        vec![
            depth_support(FORMAT_D24_UNORM_S8_UINT, 0, 0x200),
            depth_support(FORMAT_D32_SFLOAT_S8_UINT, 0, 0x200),
            depth_support(FORMAT_D32_SFLOAT, 0, 0x200),
        ],
    );
    let sc = Swapchain::default();
    assert_eq!(sc.find_depth_format(&all), Some(Format { raw: FORMAT_D32_SFLOAT }));
    let two = device(
        Vec::new(),
        Vec::new(),
        capabilities(2, 0, extent(800, 600)),
        vec![
            depth_support(FORMAT_D24_UNORM_S8_UINT, 0, 0x200),
            depth_support(FORMAT_D32_SFLOAT_S8_UINT, 0, 0x200),
            depth_support(FORMAT_D32_SFLOAT, 0x200, 0),
        ],
    );
    assert_eq!(sc.find_depth_format(&two), Some(Format { raw: FORMAT_D32_SFLOAT_S8_UINT }));
    let one = device(
        Vec::new(),
        Vec::new(),
        capabilities(2, 0, extent(800, 600)),
        vec![depth_support(FORMAT_D24_UNORM_S8_UINT, 0, 0x200)],
    );
    assert_eq!(sc.find_depth_format(&one), Some(Format { raw: FORMAT_D24_UNORM_S8_UINT }));
    let none = device(
        Vec::new(),
        Vec::new(),
        capabilities(2, 0, extent(800, 600)),
        vec![depth_support(FORMAT_B8G8R8A8_SRGB, 0x200, 0x200)],
    );
    assert_eq!(sc.find_depth_format(&none), None);
}

fn good_device() -> DeviceInfo {
    let mut d = device(
        vec![
            surface_format(FORMAT_B8G8R8A8_UNORM, COLOR_SPACE_SRGB_NONLINEAR),
            surface_format(FORMAT_B8G8R8A8_SRGB, COLOR_SPACE_SRGB_NONLINEAR),
        ],
        vec![mode(PRESENT_MODE_FIFO), mode(PRESENT_MODE_MAILBOX)],
        capabilities(2, 0, extent(UNDEFINED_EXTENT, UNDEFINED_EXTENT)),
        vec![depth_support(FORMAT_D32_SFLOAT, 0, 0x200)],
    );
    d.queue_families = QueueFamily { graphics_family: 0, present_family: 1 };
    d
}

#[test]
fn new_chooses_everything_at_once() {
    let d = good_device();
    let sc = match Swapchain::new(&d, extent(5000, 480)) {
        Ok(sc) => sc,
        Err(e) => panic!("no swap chain: {:?}", e),
    };
    assert_eq!(sc.stage(), SwapchainStage::Selected);
    assert!(!sc.is_ready());
    let info = sc.swapchain_info();
    assert_eq!(info.surface, SurfaceKHR { raw: 0x51 });
    assert_eq!(info.min_image_count, 3);
    assert_eq!(info.image_format, Format { raw: FORMAT_B8G8R8A8_SRGB });
    assert_eq!(info.image_color_space, ColorSpaceKHR { raw: COLOR_SPACE_SRGB_NONLINEAR });
    assert_eq!(info.image_extent, extent(4096, 480));
    assert_eq!(info.image_array_layers, 1);
    assert_eq!(info.image_usage, IMAGE_USAGE_COLOR_ATTACHMENT);
    assert_eq!(info.image_sharing, ImageSharing::Concurrent { graphics_family: 0, present_family: 1 });
    assert_eq!(info.pre_transform, 1);
    assert_eq!(info.composite_alpha, COMPOSITE_ALPHA_OPAQUE);
    assert_eq!(info.present_mode, mode(PRESENT_MODE_MAILBOX));
    assert!(info.clipped);
    assert_eq!(info.old_swapchain, SwapchainKHR { raw: 0 });
    assert_eq!(sc.get_swapchain_extent(), extent(4096, 480));
    assert_eq!(sc.get_swapchain_image_format(), Format { raw: FORMAT_B8G8R8A8_SRGB });
    assert_eq!(sc.get_swapchain_depth_format(), Format { raw: FORMAT_D32_SFLOAT });
    assert_eq!(sc.image_count(), 0);
}

#[test]
fn extent_round_trip_follows_the_surface() {
    let mut d = good_device();
    let sc = Swapchain::new(&d, extent(10, 10)).unwrap();
    assert_eq!(sc.get_swapchain_extent(), extent(64, 32));
    d.swapchain_support.surface_capabilities.current_extent = extent(1024, 768);
    let sc = Swapchain::new(&d, extent(10, 10)).unwrap();
    assert_eq!(sc.get_swapchain_extent(), extent(1024, 768));
}

#[test]
fn renew_names_the_chain_that_is_replaced() {
    let d = good_device();
    let mut previous = Swapchain::new(&d, extent(640, 480)).unwrap();
    let renewed = Swapchain::renew(&d, extent(800, 600), &previous).unwrap();
    assert_eq!(renewed.swapchain_info().old_swapchain, SwapchainKHR::null());
    previous.create_swapchain(SwapchainKHR { raw: 0xABCD }, Vec::new());
    let renewed = Swapchain::renew(&d, extent(800, 600), &previous).unwrap();
    assert_eq!(renewed.swapchain_info().old_swapchain, SwapchainKHR { raw: 0xABCD });
    assert_eq!(renewed.swapchain_info().image_extent, extent(800, 600));
    assert_eq!(renewed.stage(), SwapchainStage::Selected);
    assert!(renewed.compare_swap_formats(&previous));
}

#[test]
fn construction_fails_in_the_order_of_the_choices() {
    let mut d = good_device();
    d.format_properties = Vec::new();
    assert_eq!(Swapchain::new(&d, extent(640, 480)).err(), Some(ConstructionError::NoDepthFormat));
    d.swapchain_support.present_modes = vec![mode(PRESENT_MODE_IMMEDIATE)];
    assert_eq!(Swapchain::new(&d, extent(640, 480)).err(), Some(ConstructionError::NoPresentMode));
    d.swapchain_support.surface_formats = Vec::new();
    assert_eq!(Swapchain::new(&d, extent(640, 480)).err(), Some(ConstructionError::NoSurfaceFormat));
}

#[test]
fn formats_are_compared_by_color_and_depth() {
    let d = good_device();
    let a = Swapchain::new(&d, extent(640, 480)).unwrap();
    let mut other = good_device();
    other.format_properties = vec![depth_support(FORMAT_D24_UNORM_S8_UINT, 0, 0x200)];
    let b = Swapchain::new(&other, extent(640, 480)).unwrap();
    assert!(!a.compare_swap_formats(&b));
    let mut third = good_device();
    third.swapchain_support.surface_formats =
        vec![surface_format(FORMAT_B8G8R8A8_UNORM, COLOR_SPACE_SRGB_NONLINEAR)];
    let c = Swapchain::new(&third, extent(640, 480)).unwrap();
    assert!(!a.compare_swap_formats(&c));
    let e = Swapchain::new(&d, extent(1, 1)).unwrap();
    assert!(a.compare_swap_formats(&e));
}

fn family(queue_flags: u32, queue_count: u32, presents: bool) -> QueueFamilyProperties {
    QueueFamilyProperties { queue_flags, queue_count, presents }
}

#[test]
fn the_first_drawing_and_the_first_presenting_family_are_found() {
    let families = vec![
        family(0x4, 1, false),
        family(0x1, 0, true),
        family(0x2, 2, true),
        family(0x7, 1, true),
        family(0x1, 1, false),
    ];
    assert_eq!(
        find_queue_families(&families),
        Some(QueueFamily { graphics_family: 3, present_family: 2 })
    );
    assert_eq!(
        find_queue_families(&vec![family(0x1, 1, true)]),
        Some(QueueFamily { graphics_family: 0, present_family: 0 })
    );
    assert_eq!(find_queue_families(&vec![family(0x1, 1, false), family(0x2, 1, false)]), None);
    assert_eq!(find_queue_families(&vec![family(0x2, 1, true), family(0x1, 0, true)]), None);
    assert_eq!(find_queue_families(&Vec::new()), None);
}

#[test]
fn the_first_allowed_memory_type_with_the_properties_is_found() {
    let types: Vec<MemoryType> =
        [0x1, 0x6, 0x7, 0x6].iter().map(|flags| MemoryType { property_flags: *flags }).collect();
    assert_eq!(find_memory_type(&types, 0b1111, 0x1), Some(0));
    assert_eq!(find_memory_type(&types, 0b1110, 0x1), Some(2));
    assert_eq!(find_memory_type(&types, 0b1111, 0x6), Some(1));
    assert_eq!(find_memory_type(&types, 0b1000, 0x6), Some(3));
    assert_eq!(find_memory_type(&types, 0b1011, 0x8), None);
    assert_eq!(find_memory_type(&types, 0b10000, 0x1), None);
    assert_eq!(find_memory_type(&types, 0, 0), None);
    assert_eq!(find_memory_type(&Vec::new(), u32::MAX, 0), None);
    let many: Vec<MemoryType> = (0..40).map(|_| MemoryType { property_flags: 0 }).collect();
    assert_eq!(find_memory_type(&many, 1 << 31, 0), Some(31));
    assert_eq!(find_memory_type(&many, 0, 0), None);
}
