use crate::color::apply_material;
use crate::color::spec_apply_material;
use crate::color::spec_from_rgb;
use crate::color::spec_to_rgb;
use crate::color::MyColor;
use crate::color::Rgb8;
use crate::color::DEFAULT_GLOBAL_AMBIENT;
use crate::raster::raster_dims;
use crate::raster::Raster;
use crate::scene::Polyhedron;
use vstd::prelude::*;

verus! {

/// The camera of a scene: the output resolution and the global ambient
/// coefficient, in `COLOR_SCALE` units.
///
/// The camera's placement — eye position, forward and up directions, field
/// of view — is geometric data owned by the external geometry collaborator
/// that casts the rays; this type holds what the renderer itself computes
/// with.  A pixel's ray leaves the eye position toward the forward direction
/// displaced by [`Viewport::pixel_ray_offsets`].
#[derive(Clone, Copy, Debug, PartialEq, Eq)]
pub struct Viewport {
    pub dimensions: (u64, u64),
    pub global_ambient: u32,
}

/// An 8-bit color pushed through ambient shading: widened to a fraction,
/// attenuated by the two coefficients, and reduced to 8 bits again.
pub open spec fn spec_shaded_rgb(base: Rgb8, scene_ambient: int, material_ambient: int) -> Rgb8 {
    spec_to_rgb(spec_apply_material(spec_from_rgb(base), scene_ambient, material_ambient))
}

impl Viewport {
    /// A viewport with the default global ambient coefficient, 0.9.
    pub fn new(dimensions: (u64, u64)) -> (v: Viewport)
        ensures
            v == (Viewport { dimensions, global_ambient: DEFAULT_GLOBAL_AMBIENT }),
    {
        Viewport { dimensions, global_ambient: DEFAULT_GLOBAL_AMBIENT }
    }

    /// A viewport with the given global ambient coefficient in `COLOR_SCALE`
    /// units.
    pub fn new_with_custom_ambient(dimensions: (u64, u64), global_ambient: u32) -> (v: Viewport)
        ensures
            v == (Viewport { dimensions, global_ambient }),
    {
        Viewport { dimensions, global_ambient }
    }

    /// The view-plane offset of the ray for pixel (x, y), as exact
    /// rationals: the offset's x component is `r.0 / width`, its z component
    /// is `r.1 / height`, and its y component is zero.  That is the planar
    /// mapping `2 - 4 * (pixel / resolution)` in lowest fractional form; the
    /// ray's direction is this offset added to the camera's forward
    /// direction, and its origin is the camera's position.
    pub fn pixel_ray_offsets(&self, x: u64, y: u64) -> (r: (i64, i64))
        requires
            0 < self.dimensions.0,
            0 < self.dimensions.1,
            x < self.dimensions.0,
            y < self.dimensions.1,
            4 * (self.dimensions.0 as int) <= i64::MAX as int,
            4 * (self.dimensions.1 as int) <= i64::MAX as int,
        ensures
            r.0 as int == 2 * (self.dimensions.0 as int) - 4 * (x as int),
            r.1 as int == 2 * (self.dimensions.1 as int) - 4 * (y as int),
    {
        let ox: i64 = 2 * (self.dimensions.0 as i64) - 4 * (x as i64);
        let oz: i64 = 2 * (self.dimensions.1 as i64) - 4 * (y as i64);
        (ox, oz)
    }

    /// Makes a raster from the dimensions of the viewport.  Every pixel
    /// starts at an implementation-default value; a render overwrites all of
    /// them.
    pub fn imagebuffer(&self) -> (r: Raster)
        requires
            self.dimensions.0 <= u32::MAX,
            self.dimensions.1 <= u32::MAX,
            3 * (self.dimensions.0 as int) * (self.dimensions.1 as int) <= usize::MAX as int,
        ensures
            raster_dims(r) == ((self.dimensions.0 as u32, self.dimensions.1 as u32)),
    {
        Raster::new(self.dimensions.0 as u32, self.dimensions.1 as u32)
    }

    /// The outcome of drawing a ray through one object: the reported hit
    /// distance, if any, paired with the object's display color under the
    /// default global ambient coefficient.
    ///
    /// `hit` is what the geometry collaborator reported for this ray and
    /// object: no intersection, or the distance as an order-preserving code
    /// (see [`crate::scene::find_closest`]).
    pub fn draw_ray(hit: Option<u64>, object: &Polyhedron) -> (r: Option<(u64, Rgb8)>)
        ensures
            match hit {
                Some(distance) => r == Some(
                    (
                        distance,
                        spec_shaded_rgb(
                            object.color,
                            DEFAULT_GLOBAL_AMBIENT as int,
                            object.material.ambient as int,
                        ),
                    ),
                ),
                None => r is None,
            },
    {
        match hit {
            Some(distance) => Some((distance, modify_color_generic(object))),
            None => None,
        }
    }
}

/// The color an object displays: its base color scaled by the viewport's
/// global ambient coefficient and by the object's own material coefficient.
pub fn modify_color(viewport: Viewport, object: &Polyhedron) -> (r: Rgb8)
    ensures
        r == spec_shaded_rgb(
            object.color,
            viewport.global_ambient as int,
            object.material.ambient as int,
        ),
{
    let color = MyColor::convert_from_rgb(object.color);
    let color = apply_material(color, viewport.global_ambient, object.material.ambient);
    color.convert_to_rgb()
}

/// [`modify_color`] for callers without a viewport at hand: shades under the
/// default global ambient coefficient.
pub fn modify_color_generic(object: &Polyhedron) -> (r: Rgb8)
    ensures
        r == spec_shaded_rgb(
            object.color,
            DEFAULT_GLOBAL_AMBIENT as int,
            object.material.ambient as int,
        ),
{
    let generic = Viewport::new((640, 480));
    modify_color(generic, object)
}

} // verus!
