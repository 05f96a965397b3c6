//! The rules by which a swap chain is fitted to a surface and a device.
//!
//! Each rule is a function of what the platform reported. The surface format
//! and the present mode go by preference, the extent and the image count by
//! the limits of the surface, and the depth format by a list of candidates.

use vstd::prelude::*;
use crate::constants::{
    COLOR_SPACE_SRGB_NONLINEAR,
    COMPOSITE_ALPHA_OPAQUE,
    FORMAT_B8G8R8A8_SRGB,
    FORMAT_D24_UNORM_S8_UINT,
    FORMAT_D32_SFLOAT,
    FORMAT_D32_SFLOAT_S8_UINT,
    FORMAT_FEATURE_DEPTH_STENCIL_ATTACHMENT,
    IMAGE_TILING_OPTIMAL,
    IMAGE_USAGE_COLOR_ATTACHMENT,
    PRESENT_MODE_FIFO,
    PRESENT_MODE_MAILBOX,
    UNDEFINED_EXTENT,
};
use crate::device::{
    ColorSpaceKHR,
    DeviceInfo,
    Format,
    PresentModeKHR,
    QueueFamily,
    SurfaceCapabilitiesKHR,
    SurfaceFormatKHR,
};
use crate::extent::Extent2D;
use crate::handles::SwapchainKHR;
use crate::info::{ImageSharing, SwapchainCreateInfoKHR};

verus! {

/// Why no swap chain can be built for a surface and a device.
#[derive(Clone, Copy, PartialEq, Eq, Structural, Debug)]
pub enum ConstructionError {
    /// The surface reported no format.
    NoSurfaceFormat,
    /// The surface reported neither of the two present modes in use.
    NoPresentMode,
    /// The device supports none of the depth formats in use.
    NoDepthFormat,
}

/// What was chosen for one generation of a swap chain.
#[derive(Clone, Copy, PartialEq, Eq, Structural, Debug)]
pub struct Selection {
    pub create_info: SwapchainCreateInfoKHR,
    pub depth_format: Format,
}

/// The surface format that is taken wherever the surface offers it: eight
/// bits per channel in sRGB, shown in the non-linear sRGB color space.
pub open spec fn preferred_surface_format() -> SurfaceFormatKHR {
    SurfaceFormatKHR {
        format: Format { raw: FORMAT_B8G8R8A8_SRGB },
        color_space: ColorSpaceKHR { raw: COLOR_SPACE_SRGB_NONLINEAR },
    }
}

/// The preferred surface format where it is among the available ones, else
/// the first of them; none where there is none.
pub open spec fn chosen_surface_format(available: Seq<SurfaceFormatKHR>) -> Option<
    SurfaceFormatKHR,
> {
    if available.len() == 0 {
        None
    } else if available.contains(preferred_surface_format()) {
        Some(preferred_surface_format())
    } else {
        Some(available[0])
    }
}

/// Chooses the surface format among those that the surface reported.
pub fn choose_swap_surface_format(available_formats: &Vec<SurfaceFormatKHR>) -> (r: Option<
    SurfaceFormatKHR,
>)
    ensures
        r == chosen_surface_format(available_formats@),
{
    let mut i: usize = 0;
    while i < available_formats.len()
        invariant
            i <= available_formats@.len(),
            forall|j: int| 0 <= j < i ==> available_formats@[j] != preferred_surface_format(),
        decreases available_formats@.len() - i,
    {
        let available_format = available_formats[i];
        if available_format.format.raw == FORMAT_B8G8R8A8_SRGB && available_format.color_space.raw
            == COLOR_SPACE_SRGB_NONLINEAR {
            return Some(available_format);
        }
        i += 1;
    }
    if available_formats.len() == 0 {
        None
    } else {
        Some(available_formats[0])
    }
}

/// The present mode that replaces a waiting image by a newer one.
pub open spec fn mailbox() -> PresentModeKHR {
    PresentModeKHR { raw: PRESENT_MODE_MAILBOX }
}

/// The present mode that shows the images in the order in which they came.
pub open spec fn fifo() -> PresentModeKHR {
    PresentModeKHR { raw: PRESENT_MODE_FIFO }
}

/// Mailbox where the surface offers it, else first-in-first-out where the
/// surface offers that; never a mode that the surface did not report.
pub open spec fn chosen_present_mode(available: Seq<PresentModeKHR>) -> Option<PresentModeKHR> {
    if available.contains(mailbox()) {
        Some(mailbox())
    } else if available.contains(fifo()) {
        Some(fifo())
    } else {
        None
    }
}

/// Chooses the present mode among those that the surface reported.
pub fn choose_swap_present_mode(available_present_modes: &Vec<PresentModeKHR>) -> (r: Option<
    PresentModeKHR,
>)
    ensures
        r == chosen_present_mode(available_present_modes@),
{
    let mut has_fifo = false;
    let mut i: usize = 0;
    while i < available_present_modes.len()
        invariant
            i <= available_present_modes@.len(),
            forall|j: int| 0 <= j < i ==> available_present_modes@[j] != mailbox(),
            has_fifo <==> exists|j: int| 0 <= j < i && available_present_modes@[j] == fifo(),
        decreases available_present_modes@.len() - i,
    {
        let present_mode = available_present_modes[i];
        if present_mode.raw == PRESENT_MODE_MAILBOX {
            return Some(present_mode);
        }
        if present_mode.raw == PRESENT_MODE_FIFO {
            has_fifo = true;
        }
        i += 1;
    }
    if has_fifo {
        Some(PresentModeKHR { raw: PRESENT_MODE_FIFO })
    } else {
        None
    }
}

/// The extent of the surface where it has one, else the extent of the window
/// bounded by the least and the greatest extent of the surface.
pub open spec fn chosen_extent(window_extent: Extent2D, capabilities: SurfaceCapabilitiesKHR) -> Extent2D {
    if capabilities.has_definite_extent() {
        capabilities.current_extent
    } else {
        window_extent.clamped_to(capabilities.min_image_extent, capabilities.max_image_extent)
    }
}

/// Chooses the extent of the swap images for a window of the given extent.
/// Where the surface has no extent of its own, its limits must be in order.
pub fn choose_swap_extent(window_extent: Extent2D, surface_capabilities: &SurfaceCapabilitiesKHR) -> (r:
    Extent2D)
    requires
        surface_capabilities.extent_selectable(),
    ensures
        r == chosen_extent(window_extent, *surface_capabilities),
{
    if surface_capabilities.current_extent.width != UNDEFINED_EXTENT {
        surface_capabilities.current_extent
    } else {
        window_extent.clamp(
            surface_capabilities.min_image_extent,
            surface_capabilities.max_image_extent,
        )
    }
}

/// One image more than the surface needs at least, but no more than it
/// allows at most, where it sets a limit.
pub open spec fn chosen_image_count(capabilities: SurfaceCapabilitiesKHR) -> int {
    let wanted = capabilities.min_image_count + 1;
    if capabilities.max_image_count > 0 && wanted > capabilities.max_image_count {
        capabilities.max_image_count as int
    } else {
        wanted
    }
}

/// Chooses how many images to ask for. The count must fit the platform's
/// interface: a surface without limit must need less than the greatest
/// number there is.
pub fn choose_image_count(surface_capabilities: &SurfaceCapabilitiesKHR) -> (r: u32)
    requires
        surface_capabilities.image_count_selectable(),
    ensures
        r == chosen_image_count(*surface_capabilities),
{
    if surface_capabilities.max_image_count > 0 && surface_capabilities.min_image_count
        >= surface_capabilities.max_image_count {
        surface_capabilities.max_image_count
    } else {
        surface_capabilities.min_image_count + 1
    }
}

/// Shared images where two different families draw and present, else images
/// owned by the one family.
pub open spec fn chosen_sharing(families: QueueFamily) -> ImageSharing {
    if families.graphics_family != families.present_family {
        ImageSharing::Concurrent {
            graphics_family: families.graphics_family,
            present_family: families.present_family,
        }
    } else {
        ImageSharing::Exclusive
    }
}

/// Chooses how the images are shared between the two queue families.
pub fn choose_image_sharing(families: QueueFamily) -> (r: ImageSharing)
    ensures
        r == chosen_sharing(families),
{
    if families.graphics_family != families.present_family {
        ImageSharing::Concurrent {
            graphics_family: families.graphics_family,
            present_family: families.present_family,
        }
    } else {
        ImageSharing::Exclusive
    }
}

/// The depth formats in use, the most wanted first: 32-bit float depth, the
/// same with an 8-bit stencil, 24-bit depth with an 8-bit stencil.
pub open spec fn depth_format_candidates() -> Seq<Format> {
    seq![
        Format { raw: FORMAT_D32_SFLOAT },
        Format { raw: FORMAT_D32_SFLOAT_S8_UINT },
        Format { raw: FORMAT_D24_UNORM_S8_UINT },
    ]
}

/// The depth formats in use, the most wanted first. These are the formats
/// whose properties the device has to be asked for.
pub fn depth_candidates() -> (r: Vec<Format>)
    ensures
        r@ == depth_format_candidates(),
{
    let mut candidates: Vec<Format> = Vec::new();
    candidates.push(Format { raw: FORMAT_D32_SFLOAT });
    candidates.push(Format { raw: FORMAT_D32_SFLOAT_S8_UINT });
    candidates.push(Format { raw: FORMAT_D24_UNORM_S8_UINT });
    candidates
}

/// Whether the device can use `format` for a depth attachment in optimal
/// tiling.
pub open spec fn usable_for_depth(device: DeviceInfo, format: Format) -> bool {
    device.spec_supports(format, IMAGE_TILING_OPTIMAL, FORMAT_FEATURE_DEPTH_STENCIL_ATTACHMENT)
}

/// The first of the depth format candidates that the device can use.
pub open spec fn chosen_depth_format(device: DeviceInfo) -> Option<Format> {
    let candidates = depth_format_candidates();
    if usable_for_depth(device, candidates[0]) {
        Some(candidates[0])
    } else if usable_for_depth(device, candidates[1]) {
        Some(candidates[1])
    } else if usable_for_depth(device, candidates[2]) {
        Some(candidates[2])
    } else {
        None
    }
}

/// What is chosen for a swap chain on the device's surface, for a window of
/// the given extent, in place of `old_swapchain`. The images are color
/// attachments of one layer; they are composed opaquely, in the current
/// transform of the surface, and pixels that cannot be seen may be dropped.
pub open spec fn selection(device: DeviceInfo, window_extent: Extent2D, old_swapchain: SwapchainKHR) -> Result<
    Selection,
    ConstructionError,
> {
    let support = device.swapchain_support;
    let capabilities = support.surface_capabilities;
    match chosen_surface_format(support.surface_formats@) {
        None => Err(ConstructionError::NoSurfaceFormat),
        Some(surface_format) => match chosen_present_mode(support.present_modes@) {
            None => Err(ConstructionError::NoPresentMode),
            Some(present_mode) => match chosen_depth_format(device) {
                None => Err(ConstructionError::NoDepthFormat),
                Some(depth_format) => Ok(
                    Selection {
                        create_info: SwapchainCreateInfoKHR {
                            surface: device.surface,
                            min_image_count: chosen_image_count(capabilities) as u32,
                            image_format: surface_format.format,
                            image_color_space: surface_format.color_space,
                            image_extent: chosen_extent(window_extent, capabilities),
                            image_array_layers: 1,
                            image_usage: IMAGE_USAGE_COLOR_ATTACHMENT,
                            image_sharing: chosen_sharing(device.queue_families),
                            pre_transform: capabilities.current_transform,
                            composite_alpha: COMPOSITE_ALPHA_OPAQUE,
                            present_mode,
                            clipped: true,
                            old_swapchain,
                        },
                        depth_format,
                    },
                ),
            },
        },
    }
}

/// The chosen present mode is one that the surface reported.
pub proof fn law_present_mode_is_supported(available: Seq<PresentModeKHR>)
    ensures
        chosen_present_mode(available) is Some ==> available.contains(chosen_present_mode(available)->0),
{
}

/// The chosen surface format is one that the surface reported, and there is
/// one whenever the surface reported any.
pub proof fn law_surface_format_is_supported(available: Seq<SurfaceFormatKHR>)
    ensures
        chosen_surface_format(available) is Some <==> available.len() > 0,
        chosen_surface_format(available) is Some ==> available.contains(
            chosen_surface_format(available)->0,
        ),
{
    if available.len() > 0 && !available.contains(preferred_surface_format()) {
        assert(chosen_surface_format(available)->0 == available[0]);
    }
}

/// The chosen image count lies between the least count of the surface and,
/// where the surface sets one, its greatest count; and it is one more than
/// the least count wherever the limit allows.
pub proof fn law_image_count_within_limits(capabilities: SurfaceCapabilitiesKHR)
    requires
        capabilities.max_image_count == 0 || capabilities.min_image_count
            <= capabilities.max_image_count,
    ensures
        capabilities.min_image_count <= chosen_image_count(capabilities)
            <= capabilities.min_image_count + 1,
        capabilities.max_image_count > 0 ==> chosen_image_count(capabilities)
            <= capabilities.max_image_count,
        capabilities.max_image_count == 0 || capabilities.min_image_count
            < capabilities.max_image_count ==> chosen_image_count(capabilities)
            == capabilities.min_image_count + 1,
{
}

} // verus!
