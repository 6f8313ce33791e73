//! The discrete core of a single-frame ray caster.
//!
//! The caster draws one box over an optional checkerboard ground plane,
//! lit by a point light. Everything it decides without arithmetic on
//! real numbers lives here, with its contract: which face of the box a
//! point belongs to and how that face is unwrapped (`face`), which
//! crossing and which hit a ray reports (`hit`), checkerboard parity,
//! hard shadows, base colour and 8-bit quantisation (`shading`), texel
//! lookup (`texture`), and the raster buffer with the loop that fills
//! it (`raster`, `render`). Vector arithmetic is the caller's: it hands
//! in the outcome of each comparison it makes.

pub mod face;
pub mod hit;
pub mod raster;
pub mod render;
pub mod shading;
pub mod texture;
