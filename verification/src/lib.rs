//! A verified model of a CRT-style compositing pipeline: a full-screen quad,
//! an offscreen render target with an explicit resize lifecycle, and the
//! post-processing transform (barrel warp, scanline darkening, RGB channel
//! split) evaluated exactly over rational coordinates.

pub mod geometry;
pub mod lifecycle;
pub mod pipeline;
pub mod shader;
pub mod texture;
pub mod warp;

use vstd::prelude::*;

verus! {

} // verus!
