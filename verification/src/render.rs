//! The raster fill loop: one shaded pixel per position of the image.

use vstd::prelude::*;
use crate::raster::{Raster, Rgb8};

verus! {

/// Renders a `width` x `height` image, row-major with the origin at the
/// top left, asking `shade` once for the colour of each pixel `(x, y)`.
///
/// The image must fit a buffer (`Raster::fits`); nothing else is asked
/// of the size.
pub fn render<F: Fn(u32, u32) -> Rgb8>(width: u32, height: u32, shade: F) -> (img: Raster)
    requires
        Raster::fits_of(width, height),
        forall|x: u32, y: u32| x < width && y < height ==> call_requires(shade, (x, y)),
    ensures
        img@.width == width,
        img@.height == height,
        img@.samples.len() == 3 * width * height,
        forall|x: u32, y: u32|
            x < width && y < height ==> call_ensures(
                shade,
                (x, y),
                #[trigger] img@.pixel(x as int, y as int),
            ),
{
    let mut img = Raster::new(width, height);
    let mut y: u32 = 0;
    while y < height
        invariant
            y <= height,
            img@.width == width,
            img@.height == height,
            img@.samples.len() == 3 * width * height,
            forall|x: u32, y: u32| x < width && y < height ==> call_requires(shade, (x, y)),
            forall|px: u32, py: u32|
                px < width && py < y ==> call_ensures(
                    shade,
                    (px, py),
                    #[trigger] img@.pixel(px as int, py as int),
                ),
        decreases height - y,
    {
        let mut x: u32 = 0;
        while x < width
            invariant
                y < height,
                x <= width,
                img@.width == width,
                img@.height == height,
                img@.samples.len() == 3 * width * height,
                forall|x: u32, y: u32| x < width && y < height ==> call_requires(shade, (x, y)),
                forall|px: u32, py: u32|
                    px < width && (py < y || (py == y && px < x)) ==> call_ensures(
                        shade,
                        (px, py),
                        #[trigger] img@.pixel(px as int, py as int),
                    ),
            decreases width - x,
        {
            let color = shade(x, y);
            img.set_pixel(x, y, color);
            x = x + 1;
        }
        y = y + 1;
    }
    img
}

} // verus!
