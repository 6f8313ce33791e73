//! An immutable RGB8 texture and its texel lookup.

use vstd::prelude::*;
use crate::raster::{Raster, RasterView, Rgb8};

verus! {

/// A loaded texture: its pixel buffer with the size it was loaded at.
pub struct Texture {
    w: u32,
    h: u32,
    data: Raster,
}

impl View for Texture {
    type V = RasterView;

    closed spec fn view(&self) -> RasterView {
        self.data@
    }
}

impl Texture {
    #[verifier::type_invariant]
    spec fn sized(self) -> bool {
        self.w == self.data@.width && self.h == self.data@.height
    }

    /// Binds a pixel buffer as a texture.
    pub fn from_raster(data: Raster) -> (tex: Texture)
        ensures
            tex@ == data@,
    {
        let w: u32 = data.width();
        let h: u32 = data.height();
        Texture { w, h, data }
    }

    /// Width in texels.
    pub fn width(&self) -> (w: u32)
        ensures
            w == self@.width,
    {
        proof {
            use_type_invariant(self);
        }
        self.w
    }

    /// Height in texels.
    pub fn height(&self) -> (h: u32)
        ensures
            h == self@.height,
    {
        proof {
            use_type_invariant(self);
        }
        self.h
    }

    /// The texel at column `x` of row `y`, rows counted from the top.
    pub fn texel(&self, x: u32, y: u32) -> (px: Rgb8)
        requires
            x < self@.width,
            y < self@.height,
        ensures
            px == self@.pixel(x as int, y as int),
    {
        self.data.pixel(x, y)
    }
}

} // verus!
