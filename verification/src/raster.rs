//! RGB8 raster buffers, kept in the `image` crate's `ImageBuffer`.

use vstd::prelude::*;

verus! {

/// One 8-bit RGB pixel.
#[derive(Clone, Copy, Debug, PartialEq, Eq, Structural)]
pub struct Rgb8 {
    pub r: u8,
    pub g: u8,
    pub b: u8,
}

/// Position of the red sample of pixel `(x, y)` in a buffer `width` pixels wide.
pub open spec fn sample_index(width: int, x: int, y: int) -> int {
    3 * (y * width + x)
}

/// What a `Raster` is: its size and its samples, three per pixel, rows
/// from the top and each row from the left.
pub struct RasterView {
    pub width: nat,
    pub height: nat,
    pub samples: Seq<u8>,
}

impl RasterView {
    /// The pixel at column `x` of row `y`, counted from the top left.
    pub open spec fn pixel(self, x: int, y: int) -> Rgb8 {
        let i = sample_index(self.width as int, x, y);
        Rgb8 { r: self.samples[i], g: self.samples[i + 1], b: self.samples[i + 2] }
    }

    /// Every pixel inside the bounds has its three samples.
    pub open spec fn complete(self) -> bool {
        3 * self.width * self.height <= self.samples.len()
    }

    /// Whether `(x, y)` names a pixel of the buffer.
    pub open spec fn in_bounds(self, x: int, y: int) -> bool {
        0 <= x < self.width && 0 <= y < self.height
    }

    /// The buffer with the pixel at `(x, y)` replaced by `px`.
    pub open spec fn with_pixel(self, x: int, y: int, px: Rgb8) -> RasterView {
        let i = sample_index(self.width as int, x, y);
        RasterView {
            width: self.width,
            height: self.height,
            samples: self.samples.update(i, px.r).update(i + 1, px.g).update(i + 2, px.b),
        }
    }

    /// The three samples of a pixel inside the bounds lie inside the
    /// first `3 * width * height` samples.
    pub proof fn lemma_sample_range(self, x: int, y: int)
        requires
            self.in_bounds(x, y),
        ensures
            0 <= sample_index(self.width as int, x, y),
            sample_index(self.width as int, x, y) + 2 < 3 * self.width * self.height,
    {
        let w = self.width as int;
        let h = self.height as int;
        assert(0 <= y * w) by (nonlinear_arith)
            requires
                0 <= y,
                0 <= w,
        ;
        assert((y + 1) * w <= h * w) by (nonlinear_arith)
            requires
                y + 1 <= h,
                0 <= w,
        ;
        assert((y + 1) * w == y * w + w) by (nonlinear_arith);
        assert(3 * w * h == 3 * (h * w)) by (nonlinear_arith);
    }

    /// Two different pixels of one buffer share no sample.
    pub proof fn lemma_samples_disjoint(self, x1: int, y1: int, x2: int, y2: int)
        requires
            self.in_bounds(x1, y1),
            self.in_bounds(x2, y2),
            x1 != x2 || y1 != y2,
        ensures
            sample_index(self.width as int, x1, y1) + 3 <= sample_index(self.width as int, x2, y2)
                || sample_index(self.width as int, x2, y2) + 3 <= sample_index(
                self.width as int,
                x1,
                y1,
            ),
    {
        let w = self.width as int;
        if y1 < y2 {
            assert((y1 + 1) * w <= y2 * w) by (nonlinear_arith)
                requires
                    y1 + 1 <= y2,
                    0 <= w,
            ;
            assert((y1 + 1) * w == y1 * w + w) by (nonlinear_arith);
        } else if y2 < y1 {
            assert((y2 + 1) * w <= y1 * w) by (nonlinear_arith)
                requires
                    y2 + 1 <= y1,
                    0 <= w,
            ;
            assert((y2 + 1) * w == y2 * w + w) by (nonlinear_arith);
        }
    }

    /// Overwriting one pixel stores exactly that pixel and leaves every
    /// other pixel of the buffer as it was.
    pub proof fn lemma_with_pixel(self, x: int, y: int, px: Rgb8)
        requires
            self.complete(),
            self.in_bounds(x, y),
        ensures
            self.with_pixel(x, y, px).complete(),
            self.with_pixel(x, y, px).samples.len() == self.samples.len(),
            self.with_pixel(x, y, px).pixel(x, y) == px,
            forall|x2: int, y2: int|
                self.in_bounds(x2, y2) && (x2 != x || y2 != y) ==> #[trigger] self.with_pixel(
                    x,
                    y,
                    px,
                ).pixel(x2, y2) == self.pixel(x2, y2),
    {
        self.lemma_sample_range(x, y);
        assert forall|x2: int, y2: int|
            self.in_bounds(x2, y2) && (x2 != x || y2 != y) implies #[trigger] self.with_pixel(
                x,
                y,
                px,
            ).pixel(x2, y2) == self.pixel(x2, y2) by {
            self.lemma_sample_range(x2, y2);
            self.lemma_samples_disjoint(x, y, x2, y2);
        }
    }
}

/// An `image::RgbImage`. Verified code reaches it only through the
/// functions below, each of which stands for one method of `ImageBuffer`.
#[verifier::external_body]
pub struct RgbStore {
    inner: image::RgbImage,
}

/// Width and height of a stored image, in pixels.
pub uninterp spec fn store_dims(store: RgbStore) -> (nat, nat);

/// The samples of a stored image: its whole backing vector, in order.
pub uninterp spec fn store_samples(store: RgbStore) -> Seq<u8>;

/// `ImageBuffer::new`: an image of the given size with every sample zero.
/// The call panics where the sample count does not fit a vector, so
/// such sizes are left out.
#[verifier::external_body]
fn image_new(width: u32, height: u32) -> (store: RgbStore)
    requires
        3 * width <= usize::MAX,
        3 * width * height <= isize::MAX,
    ensures
        store_dims(store) == (width as nat, height as nat),
        store_samples(store) == Seq::new((3 * width * height) as nat, |i: int| 0u8),
{
    RgbStore { inner: image::ImageBuffer::new(width, height) }
}

/// `ImageBuffer::from_raw`: adopts `data` as the samples of a
/// `width` x `height` image, or gives `None` where `data` is shorter
/// than the three samples per pixel that the size asks for.
#[verifier::external_body]
fn image_from_raw(width: u32, height: u32, data: Vec<u8>) -> (made: Option<RgbStore>)
    ensures
        made.is_some() == (3 * width <= usize::MAX && 3 * width * height <= data@.len()),
        made.is_some() ==> store_dims(made.unwrap()) == (width as nat, height as nat),
        made.is_some() ==> store_samples(made.unwrap()) == data@,
{
    match image::ImageBuffer::from_raw(width, height, data) {
        Some(inner) => Some(RgbStore { inner }),
        None => None,
    }
}

/// `ImageBuffer::into_raw`: hands the backing vector out.
#[verifier::external_body]
fn image_into_raw(store: RgbStore) -> (data: Vec<u8>)
    ensures
        data@ == store_samples(store),
{
    store.inner.into_raw()
}

/// `ImageBuffer::dimensions`: the width and height the image was made with.
#[verifier::external_body]
fn image_dimensions(store: &RgbStore) -> (dims: (u32, u32))
    ensures
        store_dims(*store) == (dims.0 as nat, dims.1 as nat),
{
    store.inner.dimensions()
}

/// `ImageBuffer::get_pixel`: the three samples stored for `(x, y)`.
/// The call panics out of bounds, so that is left out.
#[verifier::external_body]
fn image_get_pixel(store: &RgbStore, x: u32, y: u32) -> (px: Rgb8)
    requires
        x < store_dims(*store).0,
        y < store_dims(*store).1,
    ensures
        px.r == store_samples(*store)[sample_index(store_dims(*store).0 as int, x as int, y as int)],
        px.g == store_samples(*store)[sample_index(store_dims(*store).0 as int, x as int, y as int) + 1],
        px.b == store_samples(*store)[sample_index(store_dims(*store).0 as int, x as int, y as int) + 2],
{
    let p = store.inner.get_pixel(x, y);
    Rgb8 { r: p.0[0], g: p.0[1], b: p.0[2] }
}

/// `ImageBuffer::put_pixel`: overwrites the three samples of `(x, y)` and
/// nothing else. The call panics out of bounds, so that is left out.
#[verifier::external_body]
fn image_put_pixel(store: &mut RgbStore, x: u32, y: u32, px: Rgb8)
    requires
        x < store_dims(*old(store)).0,
        y < store_dims(*old(store)).1,
    ensures
        store_dims(*final(store)) == store_dims(*old(store)),
        store_samples(*final(store)) == store_samples(*old(store))
            .update(sample_index(store_dims(*old(store)).0 as int, x as int, y as int), px.r)
            .update(sample_index(store_dims(*old(store)).0 as int, x as int, y as int) + 1, px.g)
            .update(sample_index(store_dims(*old(store)).0 as int, x as int, y as int) + 2, px.b),
    no_unwind
{
    store.inner.put_pixel(x, y, image::Rgb([px.r, px.g, px.b]));
}

/// A width x height buffer of RGB8 pixels, row-major with the origin at
/// the top left. It always holds the three samples of each of its pixels.
pub struct Raster {
    store: RgbStore,
}

impl View for Raster {
    type V = RasterView;

    closed spec fn view(&self) -> RasterView {
        RasterView {
            width: store_dims(self.store).0,
            height: store_dims(self.store).1,
            samples: store_samples(self.store),
        }
    }
}

impl Raster {
    #[verifier::type_invariant]
    spec fn holds_every_pixel(self) -> bool {
        self@.complete()
    }

    /// Whether a buffer of this size can be made: its sample count has
    /// to fit a vector.
    pub open spec fn fits_of(width: u32, height: u32) -> bool {
        3 * width <= usize::MAX && 3 * width * height <= isize::MAX
    }

    /// Tests whether a `width` x `height` buffer can be made.
    pub fn fits(width: u32, height: u32) -> (ok: bool)
        ensures
            ok == Self::fits_of(width, height),
    {
        let row: u64 = 3 * (width as u64);
        if row > usize::MAX as u64 {
            return false;
        }
        assert(row * height <= 0x3_0000_0000 * 0x1_0000_0000) by (nonlinear_arith)
            requires
                row <= 0x3_0000_0000,
                height <= 0x1_0000_0000,
        ;
        let samples: u128 = (row as u128) * (height as u128);
        assert(samples == 3 * width * height) by (nonlinear_arith)
            requires
                samples == row * height,
                row == 3 * width,
        ;
        samples <= isize::MAX as u128
    }

    /// A black buffer of the given size.
    pub fn new(width: u32, height: u32) -> (raster: Raster)
        requires
            Self::fits_of(width, height),
        ensures
            raster@.width == width,
            raster@.height == height,
            raster@.samples == Seq::new((3 * width * height) as nat, |i: int| 0u8),
            forall|x: int, y: int|
                raster@.in_bounds(x, y) ==> #[trigger] raster@.pixel(x, y) == (Rgb8 {
                    r: 0,
                    g: 0,
                    b: 0,
                }),
    {
        let store = image_new(width, height);
        let raster = Raster { store };
        proof {
            assert forall|x: int, y: int| raster@.in_bounds(x, y) implies #[trigger] raster@.pixel(
                x,
                y,
            ) == (Rgb8 { r: 0, g: 0, b: 0 }) by {
                raster@.lemma_sample_range(x, y);
            }
        }
        raster
    }

    /// Wraps row-major RGB samples as a `width` x `height` buffer. Fails
    /// exactly where `data` holds fewer than three samples per pixel.
    pub fn from_raw(width: u32, height: u32, data: Vec<u8>) -> (made: Option<Raster>)
        ensures
            made.is_some() == (3 * width <= usize::MAX && 3 * width * height <= data@.len()),
            made matches Some(raster) ==> raster@ == (RasterView {
                width: width as nat,
                height: height as nat,
                samples: data@,
            }),
    {
        match image_from_raw(width, height, data) {
            Some(store) => Some(Raster { store }),
            None => None,
        }
    }

    /// Gives the samples back, in the order they are stored.
    pub fn into_raw(self) -> (data: Vec<u8>)
        ensures
            data@ == self@.samples,
            3 * self@.width * self@.height <= data@.len(),
    {
        proof {
            use_type_invariant(&self);
        }
        image_into_raw(self.store)
    }

    /// Width in pixels.
    pub fn width(&self) -> (w: u32)
        ensures
            w == self@.width,
    {
        image_dimensions(&self.store).0
    }

    /// Height in pixels.
    pub fn height(&self) -> (h: u32)
        ensures
            h == self@.height,
    {
        image_dimensions(&self.store).1
    }

    /// The pixel at column `x` of row `y`.
    pub fn pixel(&self, x: u32, y: u32) -> (px: Rgb8)
        requires
            x < self@.width,
            y < self@.height,
        ensures
            px == self@.pixel(x as int, y as int),
    {
        image_get_pixel(&self.store, x, y)
    }

    /// Overwrites the pixel at column `x` of row `y`; every other pixel stays.
    pub fn set_pixel(&mut self, x: u32, y: u32, px: Rgb8)
        requires
            x < old(self)@.width,
            y < old(self)@.height,
        ensures
            final(self)@ == old(self)@.with_pixel(x as int, y as int, px),
            final(self)@.samples.len() == old(self)@.samples.len(),
            final(self)@.pixel(x as int, y as int) == px,
            forall|x2: int, y2: int|
                old(self)@.in_bounds(x2, y2) && (x2 != x || y2 != y)
                    ==> #[trigger] final(self)@.pixel(x2, y2) == old(self)@.pixel(x2, y2),
    {
        proof {
            use_type_invariant(&*self);
            self@.lemma_with_pixel(x as int, y as int, px);
        }
        image_put_pixel(&mut self.store, x, y, px);
    }
}

} // verus!
