//! Two-dimensional extents and the rule that picks the extent of a swap chain.

use vstd::prelude::*;

verus! {

/// A width and a height in pixels.
#[derive(Clone, Copy, PartialEq, Eq, Structural, Debug)]
pub struct Extent2D {
    pub width: u32,
    pub height: u32,
}

/// `input` bounded to the interval from `min` to `max`.
pub open spec fn clamped(input: int, min: int, max: int) -> int {
    if input < min {
        min
    } else if input > max {
        max
    } else {
        input
    }
}

/// Calls `num::clamp` on three `u32` values. For `min <= max` it returns `min`
/// where the input lies below it, `max` where the input lies above it, and the
/// input otherwise; with `min > max` it panics in a debug build, so those
/// bounds are left out.
#[verifier::external_body]
pub(crate) fn clamp_u32(input: u32, min: u32, max: u32) -> (r: u32)
    requires
        min <= max,
    ensures
        r == clamped(input as int, min as int, max as int),
{
    num::clamp(input, min, max)
}

impl Extent2D {
    /// This extent with each component bounded by the same component of
    /// `min` and `max`.
    pub open spec fn clamped_to(self, min: Extent2D, max: Extent2D) -> Extent2D {
        Extent2D {
            width: clamped(self.width as int, min.width as int, max.width as int) as u32,
            height: clamped(self.height as int, min.height as int, max.height as int) as u32,
        }
    }

    /// Whether each component of `self` is at most that of `other`.
    pub open spec fn fits_in(self, other: Extent2D) -> bool {
        self.width <= other.width && self.height <= other.height
    }

    /// This extent with each component bounded by the same component of
    /// `min` and `max`, which must be in order.
    pub fn clamp(self, min: Extent2D, max: Extent2D) -> (r: Extent2D)
        requires
            min.fits_in(max),
        ensures
            r == self.clamped_to(min, max),
    {
        Extent2D {
            width: clamp_u32(self.width, min.width, max.width),
            height: clamp_u32(self.height, min.height, max.height),
        }
    }
}

} // verus!
