//! What the graphics device and the surface report about themselves.
//!
//! The caller queries the platform once and hands the answers over as a
//! `DeviceInfo`. Everything that the engine selects is a function of these
//! values.

use vstd::prelude::*;
use crate::constants::{
    IMAGE_TILING_LINEAR,
    IMAGE_TILING_OPTIMAL,
    QUEUE_GRAPHICS,
    UNDEFINED_EXTENT,
};
use crate::extent::Extent2D;
use crate::handles::{CommandPool, SurfaceKHR};

verus! {

/// A texel format, by its number.
#[derive(Clone, Copy, PartialEq, Eq, Structural, Debug)]
pub struct Format {
    pub raw: i32,
}

/// A color space, by its number.
#[derive(Clone, Copy, PartialEq, Eq, Structural, Debug)]
pub struct ColorSpaceKHR {
    pub raw: i32,
}

/// A way of handing finished images to the display, by its number.
#[derive(Clone, Copy, PartialEq, Eq, Structural, Debug)]
pub struct PresentModeKHR {
    pub raw: i32,
}

/// A result code of the platform.
#[derive(Clone, Copy, PartialEq, Eq, Structural, Debug)]
pub struct ResultCode {
    pub raw: i32,
}

/// A format together with the color space in which a surface shows it.
#[derive(Clone, Copy, PartialEq, Eq, Structural, Debug)]
pub struct SurfaceFormatKHR {
    pub format: Format,
    pub color_space: ColorSpaceKHR,
}

/// The limits that a surface puts on a swap chain.
#[derive(Clone, Copy, PartialEq, Eq, Structural, Debug)]
pub struct SurfaceCapabilitiesKHR {
    /// The least number of images a swap chain must have.
    pub min_image_count: u32,
    /// The greatest number of images a swap chain may have; 0 for no limit.
    pub max_image_count: u32,
    /// The extent of the surface, or `UNDEFINED_EXTENT` in both components
    /// where the swap chain decides.
    pub current_extent: Extent2D,
    pub min_image_extent: Extent2D,
    pub max_image_extent: Extent2D,
    /// The transform of the surface relative to the display, as a flag.
    pub current_transform: u32,
}

/// The queue families that draw and that present.
#[derive(Clone, Copy, PartialEq, Eq, Structural, Debug)]
pub struct QueueFamily {
    pub graphics_family: u32,
    pub present_family: u32,
}

/// What a device reports of one queue family, and whether the family can
/// present to the surface.
#[derive(Clone, Copy, PartialEq, Eq, Structural, Debug)]
pub struct QueueFamilyProperties {
    /// The kinds of work that the queues of the family take, as flags.
    pub queue_flags: u32,
    pub queue_count: u32,
    pub presents: bool,
}

/// What a device reports of one type of memory.
#[derive(Clone, Copy, PartialEq, Eq, Structural, Debug)]
pub struct MemoryType {
    /// The properties of the memory, as flags.
    pub property_flags: u32,
}

/// The features that a device offers for one format, by tiling.
#[derive(Clone, Copy, PartialEq, Eq, Structural, Debug)]
pub struct FormatProperties {
    pub format: Format,
    pub linear_tiling_features: u32,
    pub optimal_tiling_features: u32,
}

/// What a surface supports: its formats, its present modes and its limits.
pub struct SwapChainSupportDetails {
    pub surface_formats: Vec<SurfaceFormatKHR>,
    pub present_modes: Vec<PresentModeKHR>,
    pub surface_capabilities: SurfaceCapabilitiesKHR,
}

/// The answers of one device and one surface to the engine's queries.
pub struct DeviceInfo {
    pub surface: SurfaceKHR,
    pub command_pool: CommandPool,
    pub swapchain_support: SwapChainSupportDetails,
    pub queue_families: QueueFamily,
    /// The properties of every format that the device was asked about.
    pub format_properties: Vec<FormatProperties>,
}

impl SurfaceCapabilitiesKHR {
    /// Whether the surface has an extent of its own.
    pub open spec fn has_definite_extent(self) -> bool {
        self.current_extent.width != UNDEFINED_EXTENT
    }

    /// Whether an extent can be chosen: the surface has one, or its least
    /// extent is no larger than its greatest.
    pub open spec fn extent_selectable(self) -> bool {
        self.has_definite_extent() || self.min_image_extent.fits_in(self.max_image_extent)
    }

    /// Whether one image more than the least count is a number that the
    /// platform's interface can hold.
    pub open spec fn image_count_selectable(self) -> bool {
        self.min_image_count < u32::MAX || self.max_image_count > 0
    }

    /// Whether a swap chain can be sized for this surface.
    pub open spec fn spec_is_selectable(&self) -> bool {
        self.extent_selectable() && self.image_count_selectable()
    }

    /// Tells whether a swap chain can be sized for this surface, for callers
    /// that must check before they ask for one.
    #[verifier::when_used_as_spec(spec_is_selectable)]
    pub fn is_selectable(&self) -> (r: bool)
        ensures
            r == self.spec_is_selectable(),
    {
        (self.current_extent.width != UNDEFINED_EXTENT || (self.min_image_extent.width
            <= self.max_image_extent.width && self.min_image_extent.height
            <= self.max_image_extent.height)) && (self.min_image_count < u32::MAX
            || self.max_image_count > 0)
    }
}

impl QueueFamilyProperties {
    /// Whether the family has a queue that takes graphics work.
    pub open spec fn spec_draws(&self) -> bool {
        self.queue_count > 0 && self.queue_flags & QUEUE_GRAPHICS != 0
    }

    #[verifier::when_used_as_spec(spec_draws)]
    pub fn draws(&self) -> (r: bool)
        ensures
            r == self.spec_draws(),
    {
        self.queue_count > 0 && self.queue_flags & QUEUE_GRAPHICS != 0
    }

    /// Whether the family has a queue that presents to the surface.
    pub open spec fn spec_can_present(&self) -> bool {
        self.queue_count > 0 && self.presents
    }

    #[verifier::when_used_as_spec(spec_can_present)]
    pub fn can_present(&self) -> (r: bool)
        ensures
            r == self.spec_can_present(),
    {
        self.queue_count > 0 && self.presents
    }
}

/// Whether the family at position `k` is the first that draws.
pub open spec fn is_first_drawing(families: Seq<QueueFamilyProperties>, k: int) -> bool {
    &&& 0 <= k < families.len()
    &&& families[k].spec_draws()
    &&& forall|j: int| 0 <= j < k ==> !(#[trigger] families[j]).spec_draws()
}

/// Whether the family at position `k` is the first that presents.
pub open spec fn is_first_presenting(families: Seq<QueueFamilyProperties>, k: int) -> bool {
    &&& 0 <= k < families.len()
    &&& families[k].spec_can_present()
    &&& forall|j: int| 0 <= j < k ==> !(#[trigger] families[j]).spec_can_present()
}

/// The first family that draws and the first family that presents, by their
/// positions; `None` exactly if no family draws or no family presents.
pub fn find_queue_families(families: &Vec<QueueFamilyProperties>) -> (r: Option<QueueFamily>)
    requires
        families@.len() <= u32::MAX,
    ensures
        match r {
            Some(found) => is_first_drawing(families@, found.graphics_family as int)
                && is_first_presenting(families@, found.present_family as int),
            None => (forall|k: int| 0 <= k < families@.len() ==> !(#[trigger] families@[k]).spec_draws())
                || (forall|k: int|
                0 <= k < families@.len() ==> !(#[trigger] families@[k]).spec_can_present()),
        },
{
    let mut graphics_family: Option<u32> = None;
    let mut present_family: Option<u32> = None;
    let mut i: usize = 0;
    while i < families.len()
        invariant
            i <= families@.len(),
            families@.len() <= u32::MAX,
            match graphics_family {
                Some(k) => is_first_drawing(families@, k as int),
                None => forall|j: int| 0 <= j < i ==> !(#[trigger] families@[j]).spec_draws(),
            },
            match present_family {
                Some(k) => is_first_presenting(families@, k as int),
                None => forall|j: int| 0 <= j < i ==> !(#[trigger] families@[j]).spec_can_present(),
            },
        decreases families@.len() - i,
    {
        if graphics_family.is_none() && families[i].draws() {
            graphics_family = Some(i as u32);
        }
        if present_family.is_none() && families[i].can_present() {
            present_family = Some(i as u32);
        }
        i += 1;
    }
    match (graphics_family, present_family) {
        (Some(graphics_family), Some(present_family)) => Some(
            QueueFamily { graphics_family, present_family },
        ),
        _ => None,
    }
}

impl MemoryType {
    /// Whether memory of the type at position `index` is allowed by
    /// `type_filter`, which has one bit for each position, and has every one
    /// of `properties`.
    pub open spec fn spec_suits(&self, index: u32, type_filter: u32, properties: u32) -> bool {
        index < 32 && type_filter & (1u32 << index) != 0 && self.property_flags & properties
            == properties
    }

    #[verifier::when_used_as_spec(spec_suits)]
    pub fn suits(&self, index: u32, type_filter: u32, properties: u32) -> (r: bool)
        ensures
            r == self.spec_suits(index, type_filter, properties),
    {
        index < 32 && type_filter & (1u32 << index) != 0 && self.property_flags & properties
            == properties
    }
}

/// Whether the memory type at position `k` suits and none before it does.
pub open spec fn is_first_suitable(
    memory_types: Seq<MemoryType>,
    type_filter: u32,
    properties: u32,
    k: int,
) -> bool {
    &&& 0 <= k < memory_types.len()
    &&& k < 32
    &&& memory_types[k].spec_suits(k as u32, type_filter, properties)
    &&& forall|j: int|
        0 <= j < k ==> !(#[trigger] memory_types[j]).spec_suits(j as u32, type_filter, properties)
}

/// The position of the first memory type that `type_filter` allows and that
/// has every one of `properties`; `None` exactly if there is none among the
/// first 32, which is as many as a filter can allow.
pub fn find_memory_type(memory_types: &Vec<MemoryType>, type_filter: u32, properties: u32) -> (r:
    Option<u32>)
    ensures
        match r {
            Some(index) => is_first_suitable(memory_types@, type_filter, properties, index as int),
            None => forall|k: int|
                0 <= k < memory_types@.len() && k < 32 ==> !(#[trigger] memory_types@[k]).spec_suits(
                    k as u32,
                    type_filter,
                    properties,
                ),
        },
{
    let mut index: u32 = 0;
    while index < 32 && (index as usize) < memory_types.len()
        invariant
            index <= 32,
            index <= memory_types@.len(),
            forall|j: int|
                0 <= j < index ==> !(#[trigger] memory_types@[j]).spec_suits(
                    j as u32,
                    type_filter,
                    properties,
                ),
        decreases 32 - index,
    {
        if memory_types[index as usize].suits(index, type_filter, properties) {
            return Some(index);
        }
        index += 1;
    }
    None
}

impl FormatProperties {
    /// The features offered with the given tiling; none for a tiling that is
    /// neither linear nor optimal.
    pub open spec fn features(self, tiling: i32) -> u32 {
        if tiling == IMAGE_TILING_LINEAR {
            self.linear_tiling_features
        } else if tiling == IMAGE_TILING_OPTIMAL {
            self.optimal_tiling_features
        } else {
            0
        }
    }

    /// Whether these are the properties of `format` and offer every one of
    /// `features` with the given tiling.
    pub open spec fn spec_offers(&self, format: Format, tiling: i32, features: u32) -> bool {
        self.format == format && self.features(tiling) & features == features
    }

    #[verifier::when_used_as_spec(spec_offers)]
    pub fn offers(&self, format: Format, tiling: i32, features: u32) -> (r: bool)
        ensures
            r == self.spec_offers(format, tiling, features),
    {
        let offered: u32 = if tiling == IMAGE_TILING_LINEAR {
            self.linear_tiling_features
        } else if tiling == IMAGE_TILING_OPTIMAL {
            self.optimal_tiling_features
        } else {
            0
        };
        self.format == format && offered & features == features
    }
}

impl DeviceInfo {
    /// Whether the device reported `format` with every one of `features` for
    /// the given tiling.
    pub open spec fn spec_supports(&self, format: Format, tiling: i32, features: u32) -> bool {
        exists|i: int|
            0 <= i < self.format_properties@.len() && (
            #[trigger] self.format_properties@[i]).spec_offers(format, tiling, features)
    }

    #[verifier::when_used_as_spec(spec_supports)]
    pub fn supports(&self, format: Format, tiling: i32, features: u32) -> (r: bool)
        ensures
            r == self.spec_supports(format, tiling, features),
    {
        let mut i: usize = 0;
        while i < self.format_properties.len()
            invariant
                i <= self.format_properties@.len(),
                forall|j: int|
                    0 <= j < i ==> !(#[trigger] self.format_properties@[j]).spec_offers(
                        format,
                        tiling,
                        features,
                    ),
            decreases self.format_properties@.len() - i,
        {
            if self.format_properties[i].offers(format, tiling, features) {
                return true;
            }
            i += 1;
        }
        false
    }

    /// Whether `candidates[k]` is supported and no candidate before it is.
    pub open spec fn is_first_supported(
        self,
        candidates: Seq<Format>,
        tiling: i32,
        features: u32,
        k: int,
    ) -> bool {
        &&& 0 <= k < candidates.len()
        &&& self.spec_supports(candidates[k], tiling, features)
        &&& forall|j: int| 0 <= j < k ==> !self.spec_supports(#[trigger] candidates[j], tiling, features)
    }

    /// The first of `candidates`, in their order, that the device supports
    /// with the given tiling and features; `None` exactly if it supports none
    /// of them.
    pub fn find_support_format(&self, candidates: &Vec<Format>, tiling: i32, features: u32) -> (r:
        Option<Format>)
        ensures
            match r {
                Some(format) => exists|k: int|
                    self.is_first_supported(candidates@, tiling, features, k) && candidates@[k]
                        == format,
                None => forall|k: int|
                    0 <= k < candidates@.len() ==> !self.spec_supports(
                        #[trigger] candidates@[k],
                        tiling,
                        features,
                    ),
            },
    {
        let mut k: usize = 0;
        while k < candidates.len()
            invariant
                k <= candidates@.len(),
                forall|j: int|
                    0 <= j < k ==> !self.spec_supports(#[trigger] candidates@[j], tiling, features),
            decreases candidates@.len() - k,
        {
            if self.supports(candidates[k], tiling, features) {
                return Some(candidates[k]);
            }
            k += 1;
        }
        None
    }
}

} // verus!
