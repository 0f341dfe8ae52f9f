//! Core of a Monte Carlo path tracer: the pixel buffer it renders into,
//! the bitmap framing of that buffer, and the integrator's termination rule.
//!
//! The floating-point geometry (vectors, camera, materials, sphere
//! intersection, the recursive radiance estimator) lives in the surrounding
//! application; this crate verifies everything the renderer computes on
//! plain integers: pixel addressing, colour packing, the bitmap header and
//! its byte serialization, and when a light path keeps bouncing.

use vstd::prelude::*;

pub mod image;
pub mod bitmap;
pub mod ppm;

pub use crate::image::Image;
pub use crate::image::pack_rgb;
pub use crate::bitmap::BitmapHeader;

verus! {

/// Hard cap on the bounce recursion: the integrator's sole termination
/// guarantee besides absorption.
pub const MAX_DEPTH: i32 = 50;

/// The integrator's termination rule: a scattered sample keeps carrying
/// light only while it was not absorbed and the bounce count is below the
/// recursion cap; otherwise the path contributes black.
pub fn path_continues(absorbed: bool, depth: i32) -> (c: bool)
    ensures
        c == (!absorbed && depth < MAX_DEPTH),
        depth >= MAX_DEPTH ==> !c,
{
    !absorbed && depth < MAX_DEPTH
}

} // verus!
