use crate::color::apply_material;
use crate::color::lemma_scale_channel_full;
use crate::color::spec_from_rgb;
use crate::color::spec_mult;
use crate::color::spec_to_rgb;
use crate::color::MyColor;
use crate::color::Material;
use crate::color::Rgb8;
use crate::color::COLOR_SCALE;
use crate::color::DEFAULT_MATERIAL_AMBIENT;
use crate::raster::raster_dims;
use crate::raster::raster_pixels;
use crate::raster::Raster;
use crate::viewport::spec_shaded_rgb;
use crate::viewport::Viewport;
use vstd::prelude::*;

verus! {

/// One solid in a scene, as the renderer sees it: a display color and a
/// material.  The shape geometry and its placement are owned by the external
/// geometry collaborator that casts the rays; a scene's objects correspond
/// to its shapes by position in the list.
#[derive(Clone, Copy, Debug, PartialEq, Eq, Structural)]
pub struct Polyhedron {
    pub color: Rgb8,
    pub material: Material,
}

impl Polyhedron {
    /// An object of the given color with the default material.
    pub fn new(color: Rgb8) -> (p: Polyhedron)
        ensures
            p == (Polyhedron { color, material: Material { ambient: DEFAULT_MATERIAL_AMBIENT } }),
    {
        Polyhedron { color, material: Material::new() }
    }

    /// An object of the given color and material.
    pub fn with_material(color: Rgb8, material: Material) -> (p: Polyhedron)
        ensures
            p == (Polyhedron { color, material }),
    {
        Polyhedron { color, material }
    }
}

// A ray's hit distances arrive as order-preserving codes: one `u64` per hit,
// such that a smaller code means a nearer hit.  Non-negative IEEE double
// distances order the same way as their raw bit patterns, so the geometry
// collaborator can pass those bits through unchanged.

/// Where the nearest hit of a ray stands in a list of per-object outcomes:
/// position `i` reported distance `d`, no object reported a smaller one, and
/// every position before `i` that hit at all hit strictly farther — ties on
/// the minimal distance resolve to the earliest position.
pub open spec fn is_nearest_hit(hits: Seq<Option<u64>>, i: int, d: u64) -> bool {
    &&& 0 <= i < hits.len()
    &&& hits[i] == Some(d)
    &&& forall|j: int| 0 <= j < hits.len() ==> ((#[trigger] hits[j]) matches Some(dj) ==> d <= dj)
    &&& forall|j: int| 0 <= j < i ==> ((#[trigger] hits[j]) matches Some(dj) ==> d < dj)
}

/// The nearest hit in a list of per-object outcomes, with ties resolved to
/// the earliest position; `None` when nothing was hit.
pub open spec fn spec_find_closest(hits: Seq<Option<u64>>) -> Option<(int, u64)>
    decreases hits.len(),
{
    if hits.len() == 0 {
        None
    } else {
        match (spec_find_closest(hits.drop_last()), hits.last()) {
            (None, None) => None,
            (None, Some(d)) => Some((hits.len() - 1, d)),
            (Some(best), None) => Some(best),
            (Some((bi, bd)), Some(d)) => if d < bd {
                Some((hits.len() - 1, d))
            } else {
                Some((bi, bd))
            },
        }
    }
}

/// What [`spec_find_closest`] returns is the nearest hit in the sense of
/// [`is_nearest_hit`] — the smallest reported distance wins wherever it
/// stands in the list — and it returns `None` only when no position hit.
pub proof fn lemma_find_closest_is_nearest(hits: Seq<Option<u64>>)
    ensures
        spec_find_closest(hits) matches Some((i, d)) ==> is_nearest_hit(hits, i, d),
        spec_find_closest(hits) is None ==> forall|j: int|
            0 <= j < hits.len() ==> hits[j] is None,
    decreases hits.len(),
{
    if hits.len() > 0 {
        let prefix = hits.drop_last();
        lemma_find_closest_is_nearest(prefix);
        assert(forall|j: int| 0 <= j < prefix.len() ==> prefix[j] == hits[j]);
        assert(hits.last() == hits[hits.len() - 1]);
    }
}

/// Nearest-hit resolution: the position and distance of the object a ray
/// strikes first, given each object's reported outcome for that ray.  Ties
/// on the minimal distance resolve to the earliest position in the list;
/// `None` means the ray missed every object.
pub fn find_closest(hits: &Vec<Option<u64>>) -> (r: Option<(usize, u64)>)
    ensures
        r is Some <==> spec_find_closest(hits@) is Some,
        r matches Some((i, d)) ==> spec_find_closest(hits@) == Some((i as int, d))
            && is_nearest_hit(hits@, i as int, d),
        r is None ==> forall|j: int| 0 <= j < hits@.len() ==> hits@[j] is None,
{
    let mut closest: Option<(usize, u64)> = None;
    let mut k: usize = 0;
    while k < hits.len()
        invariant
            k <= hits@.len(),
            closest is Some <==> spec_find_closest(hits@.take(k as int)) is Some,
            closest matches Some((i, d)) ==> spec_find_closest(hits@.take(k as int)) == Some(
                (i as int, d),
            ),
        decreases hits@.len() - k,
    {
        let ghost prefix = hits@.take(k as int);
        let replace = match (&closest, &hits[k]) {
            (_, None) => false,
            (None, Some(_)) => true,
            (Some((_, best)), Some(distance)) => distance < best,
        };
        if replace {
            match hits[k] {
                Some(distance) => {
                    closest = Some((k, distance));
                }
                None => {}
            }
        }
        proof {
            assert(hits@.take(k as int + 1).drop_last() =~= prefix);
            assert(hits@.take(k as int + 1).last() == hits@[k as int]);
        }
        k += 1;
    }
    proof {
        assert(hits@.take(hits@.len() as int) =~= hits@);
        lemma_find_closest_is_nearest(hits@);
    }
    closest
}

/// A render failed before any pixel work began.
#[derive(Clone, Copy, Debug, PartialEq, Eq, Structural)]
pub enum RenderError {
    /// The scene holds no objects at all; rendering one is a programming
    /// error, not a way to produce a background-only image.
    EmptyScene,
}

/// A scene: the objects in it, a camera, a background color, and the global
/// ambient coefficient (in `COLOR_SCALE` units) that attenuates every
/// displayed color.  Built once, rendered, then discarded: there is no
/// mutation API.
pub struct Scene {
    pub objects: Vec<Polyhedron>,
    pub camera: Viewport,
    pub default_color: Rgb8,
    pub ambient_light: u32,
}

/// An 8-bit color attenuated by one coefficient: widened to a fraction,
/// scaled, and reduced to 8 bits again.  The same as shading with a material
/// coefficient of 1.0.
pub open spec fn spec_apply_ambient(ambient: int, c: Rgb8) -> Rgb8 {
    spec_to_rgb(spec_mult(spec_from_rgb(c), ambient))
}

/// Applying the scene's ambient coefficient alone is the same as shading
/// with an implicit background material whose coefficient is 1.0: the
/// background of a rendered pixel is ambient-attenuated exactly as a hit
/// object with a full material would be.
pub proof fn lemma_apply_ambient_is_full_material(ambient: int, c: Rgb8)
    ensures
        spec_apply_ambient(ambient, c) == spec_shaded_rgb(c, ambient, COLOR_SCALE as int),
{
    let m = spec_mult(spec_from_rgb(c), ambient);
    lemma_scale_channel_full(m.r as int);
    lemma_scale_channel_full(m.g as int);
    lemma_scale_channel_full(m.b as int);
}

/// The color of one rendered pixel: the nearest hit object's display color
/// under the scene's ambient term, or the ambient-shaded background color
/// where the ray missed everything.
pub open spec fn spec_render_pixel(s: Scene, hits: Seq<Option<u64>>) -> Rgb8 {
    match spec_find_closest(hits) {
        None => spec_apply_ambient(s.ambient_light as int, s.default_color),
        Some((i, d)) => spec_shaded_rgb(
            s.objects@[i].color,
            s.ambient_light as int,
            s.objects@[i].material.ambient as int,
        ),
    }
}

/// The expected raster entry for a pixel.
pub open spec fn rgb_triple(p: Rgb8) -> (u8, u8, u8) {
    (p.r, p.g, p.b)
}

impl Scene {
    /// A scene from its parts.
    pub fn new(
        objects: Vec<Polyhedron>,
        camera: Viewport,
        default_color: Rgb8,
        ambient_light: u32,
    ) -> (s: Scene)
        ensures
            s.objects@ == objects@,
            s.camera == camera,
            s.default_color == default_color,
            s.ambient_light == ambient_light,
    {
        Scene { objects, camera, default_color, ambient_light }
    }

    /// Application of the scene's ambient lighting to a color, saturating
    /// instead of overflowing.
    pub fn apply_ambient(&self, color: Rgb8) -> (r: Rgb8)
        ensures
            r == spec_apply_ambient(self.ambient_light as int, color),
    {
        MyColor::convert_from_rgb(color).mult(self.ambient_light).convert_to_rgb()
    }

    /// The color of one pixel, given each object's reported outcome for that
    /// pixel's ray: the nearest hit's display color under the scene's
    /// ambient term, or the ambient-shaded background on a miss.
    pub fn render_pixel(&self, object_hits: &Vec<Option<u64>>) -> (r: Rgb8)
        requires
            object_hits@.len() == self.objects@.len(),
        ensures
            r == spec_render_pixel(*self, object_hits@),
    {
        match find_closest(object_hits) {
            None => self.apply_ambient(self.default_color),
            Some((i, _distance)) => {
                let object = &self.objects[i];
                let color = MyColor::convert_from_rgb(object.color);
                apply_material(color, self.ambient_light, object.material.ambient).convert_to_rgb()
            }
        }
    }

    /// Renders the full image: one ray per pixel, nearest-hit resolution
    /// across the scene's objects, ambient-only compositing.
    ///
    /// `hits` is the grid of outcomes the geometry collaborator reported:
    /// row-major by pixel (`y * width + x`), one entry per object for each
    /// pixel, each entry a distance code as in [`find_closest`].  A scene
    /// with no objects fails fast before any pixel work; a camera without a
    /// positive resolution is a precondition violation.
    #[verifier::loop_isolation(false)]
    pub fn render(&self, hits: &Vec<Vec<Option<u64>>>) -> (result: Result<Raster, RenderError>)
        requires
            0 < self.camera.dimensions.0,
            0 < self.camera.dimensions.1,
            self.camera.dimensions.0 <= u32::MAX,
            self.camera.dimensions.1 <= u32::MAX,
            3 * (self.camera.dimensions.0 as int) * (self.camera.dimensions.1 as int)
                <= usize::MAX as int,
            hits@.len() == (self.camera.dimensions.0 as int) * (self.camera.dimensions.1 as int),
            forall|k: int|
                0 <= k < hits@.len() ==> (#[trigger] hits@[k])@.len() == self.objects@.len(),
        ensures
            result is Err <==> self.objects@.len() == 0,
            result is Err ==> result == Err::<Raster, RenderError>(RenderError::EmptyScene),
            result matches Ok(img) ==> raster_dims(img) == (
                (self.camera.dimensions.0 as u32, self.camera.dimensions.1 as u32)
            ) && forall|x: u32, y: u32|
                x < self.camera.dimensions.0 && y < self.camera.dimensions.1
                    ==> #[trigger] raster_pixels(img)[((x, y))] == rgb_triple(
                    spec_render_pixel(
                        *self,
                        hits@[(y as int) * (self.camera.dimensions.0 as int) + (x as int)]@,
                    ),
                ),
    {
        if self.objects.len() == 0 {
            return Err(RenderError::EmptyScene);
        }
        let w: u32 = self.camera.dimensions.0 as u32;
        let h: u32 = self.camera.dimensions.1 as u32;
        let mut img = self.camera.imagebuffer();
        let mut y: u32 = 0;
        while y < h
            invariant
                y <= h,
                raster_dims(img) == ((w, h)),
                forall|a: u32, b: u32|
                    a < w && b < y ==> #[trigger] raster_pixels(img)[((a, b))] == rgb_triple(
                        spec_render_pixel(*self, hits@[(b as int) * (w as int) + (a as int)]@),
                    ),
            decreases h - y,
        {
            let mut x: u32 = 0;
            while x < w
                invariant
                    x <= w,
                    y < h,
                    raster_dims(img) == ((w, h)),
                    forall|a: u32, b: u32|
                        a < w && b < y ==> #[trigger] raster_pixels(img)[((a, b))] == rgb_triple(
                            spec_render_pixel(*self, hits@[(b as int) * (w as int) + (a as int)]@),
                        ),
                    forall|a: u32|
                        a < x ==> #[trigger] raster_pixels(img)[((a, y))] == rgb_triple(
                            spec_render_pixel(*self, hits@[(y as int) * (w as int) + (a as int)]@),
                        ),
                decreases w - x,
            {
                proof {
                    assert((y as int) * (w as int) + (x as int) < (w as int) * (h as int))
                        by (nonlinear_arith)
                        requires
                            0 <= (y as int) < (h as int),
                            0 <= (x as int) < (w as int),
                    ;
                    assert((w as int) * (h as int) <= usize::MAX as int) by (nonlinear_arith)
                        requires
                            3 * (w as int) * (h as int) <= usize::MAX as int,
                            0 <= (w as int),
                            0 <= (h as int),
                    ;
                }
                let idx: usize = (y as usize) * (w as usize) + (x as usize);
                let pixel = self.render_pixel(&hits[idx]);
                img.set_pixel(x, y, pixel);
                x += 1;
            }
            y += 1;
        }
        Ok(img)
    }
}

} // verus!
