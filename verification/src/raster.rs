use crate::color::Rgb8;
use vstd::prelude::*;

verus! {

/// The renderer's output artifact: a width x height grid of 8-bit RGB
/// pixels, backed by the `image` crate's buffer type.  The buffer itself is
/// opaque here; its observable state is the two names below, and each method
/// states how the call it makes moves that state.
#[verifier::external_body]
pub struct Raster {
    img: image::RgbImage,
}

/// The width and height a raster was allocated with.
pub uninterp spec fn raster_dims(r: Raster) -> (u32, u32);

/// The pixels a raster holds, as channel triples keyed by (column, row).
pub uninterp spec fn raster_pixels(r: Raster) -> Map<(u32, u32), (u8, u8, u8)>;

impl Raster {
    /// Relies on image::ImageBuffer::new: the buffer it returns has exactly
    /// the requested dimensions, with every pixel set to zero.  It panics
    /// when the byte length (three channels per pixel) overflows usize, so
    /// that is excluded here.
    #[verifier::external_body]
    pub fn new(width: u32, height: u32) -> (r: Raster)
        requires
            3 * (width as int) * (height as int) <= usize::MAX as int,
        ensures
            raster_dims(r) == (width, height),
            forall|x: u32, y: u32|
                x < width && y < height ==> raster_pixels(r).contains_pair(
                    (x, y),
                    (0u8, 0u8, 0u8),
                ),
    {
        Raster { img: image::ImageBuffer::new(width, height) }
    }

    /// Relies on image::ImageBuffer::width.
    #[verifier::external_body]
    pub fn width(&self) -> (w: u32)
        ensures
            w == raster_dims(*self).0,
    {
        self.img.width()
    }

    /// Relies on image::ImageBuffer::height.
    #[verifier::external_body]
    pub fn height(&self) -> (h: u32)
        ensures
            h == raster_dims(*self).1,
    {
        self.img.height()
    }

    /// Relies on image::ImageBuffer::put_pixel: it overwrites the pixel at
    /// the given coordinates and touches nothing else.  It panics outside
    /// the buffer's bounds, so those coordinates are excluded here.
    #[verifier::external_body]
    pub fn set_pixel(&mut self, x: u32, y: u32, p: Rgb8)
        requires
            x < raster_dims(*old(self)).0,
            y < raster_dims(*old(self)).1,
        ensures
            raster_dims(*final(self)) == raster_dims(*old(self)),
            raster_pixels(*final(self)) == raster_pixels(*old(self)).insert(
                (x, y),
                (p.r, p.g, p.b),
            ),
    {
        self.img.put_pixel(x, y, image::Rgb([p.r, p.g, p.b]));
    }

    /// Relies on image::ImageBuffer::get_pixel: it returns the pixel at the
    /// given coordinates.  It panics outside the buffer's bounds, so those
    /// coordinates are excluded here.
    #[verifier::external_body]
    pub fn get_pixel(&self, x: u32, y: u32) -> (p: Rgb8)
        requires
            x < raster_dims(*self).0,
            y < raster_dims(*self).1,
        ensures
            raster_pixels(*self)[(x, y)] == (p.r, p.g, p.b),
    {
        let px = self.img.get_pixel(x, y);
        Rgb8 { r: px[0], g: px[1], b: px[2] }
    }
}

} // verus!
