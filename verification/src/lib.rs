//! A software rasterization back-end for procedurally shaded celestial
//! bodies: a depth-tested framebuffer with an emission compositing pass,
//! and a shading pipeline (vertex transform, per-fragment materials).
//!
//! All fractional quantities (coordinates, depths, intensities, noise
//! samples, interpolation factors) are fixed-point integers in milli-units:
//! the stored value is one thousand times the real one.

use vstd::prelude::*;

pub mod color;
pub mod fixed;
pub mod framebuffer;
pub mod linalg;
pub mod shaders;

verus! {

/// One thousand fixed-point steps make one real unit.
pub const FX_ONE: i64 = 1000;

} // verus!
