use vstd::arithmetic::div_mod::lemma_div_multiples_vanish;
use vstd::arithmetic::mul::lemma_mul_is_commutative;
use vstd::prelude::*;

verus! {

/// Channel intensities and lighting coefficients are exact fractions with
/// this fixed denominator: `COLOR_SCALE` stands for 1.0 and `0` for 0.0.
/// The denominator is a multiple of 255, so every 8-bit channel value has an
/// exact representation, and a multiple of 10, so the default coefficients
/// (0.9 global, 0.4 per material) are exact as well.
pub const COLOR_SCALE: u32 = 255_000;

/// One 8-bit quantization step: `COLOR_SCALE / 255`.
pub const EIGHT_BIT_STEP: u32 = 1_000;

/// The default ambient coefficient of a material: 0.4.
pub const DEFAULT_MATERIAL_AMBIENT: u32 = 102_000;

/// The default global ambient coefficient of a viewport: 0.9.
pub const DEFAULT_GLOBAL_AMBIENT: u32 = 229_500;

/// An 8-bit-per-channel RGB pixel, the raster's storage format.
#[derive(Clone, Copy, Debug, PartialEq, Eq, Structural)]
pub struct Rgb8 {
    pub r: u8,
    pub g: u8,
    pub b: u8,
}

/// A color with each channel a fraction in [0, 1]: `0` is black and
/// `COLOR_SCALE` per channel is white.  Every operation clamps its result, so
/// colors returned by this module always satisfy [`is_clamped`].
#[derive(Clone, Copy, Debug, PartialEq, Eq, Structural)]
pub struct MyColor {
    pub r: u32,
    pub g: u32,
    pub b: u32,
}

/// A channel value forced into [0, COLOR_SCALE].
pub open spec fn clamp_channel(v: int) -> int {
    if v < 0 {
        0
    } else if v > COLOR_SCALE as int {
        COLOR_SCALE as int
    } else {
        v
    }
}

/// Channel-wise saturating addition.
pub open spec fn add_channel(a: int, b: int) -> int {
    clamp_channel(a + b)
}

/// A channel scaled by a coefficient (both in `COLOR_SCALE` units), rounded
/// toward zero and clamped.
pub open spec fn scale_channel(c: int, s: int) -> int {
    clamp_channel((c * s) / (COLOR_SCALE as int))
}

/// A channel reduced to 8 bits: round(clamped value / one step).
pub open spec fn byte_of_channel(v: int) -> int {
    (clamp_channel(v) + (EIGHT_BIT_STEP as int) / 2) / (EIGHT_BIT_STEP as int)
}

/// An 8-bit channel value widened to `COLOR_SCALE` units; exact.
pub open spec fn channel_of_byte(b: int) -> int {
    b * (EIGHT_BIT_STEP as int)
}

/// Every channel lies in [0, COLOR_SCALE].
pub open spec fn is_clamped(c: MyColor) -> bool {
    c.r <= COLOR_SCALE && c.g <= COLOR_SCALE && c.b <= COLOR_SCALE
}

/// [`MyColor::clamp`], channel by channel.
pub open spec fn spec_clamp(c: MyColor) -> MyColor {
    MyColor {
        r: clamp_channel(c.r as int) as u32,
        g: clamp_channel(c.g as int) as u32,
        b: clamp_channel(c.b as int) as u32,
    }
}

/// [`MyColor::add`], channel by channel.
pub open spec fn spec_add(a: MyColor, b: MyColor) -> MyColor {
    MyColor {
        r: add_channel(a.r as int, b.r as int) as u32,
        g: add_channel(a.g as int, b.g as int) as u32,
        b: add_channel(a.b as int, b.b as int) as u32,
    }
}

/// [`MyColor::mult`], channel by channel.
pub open spec fn spec_mult(c: MyColor, s: int) -> MyColor {
    MyColor {
        r: scale_channel(c.r as int, s) as u32,
        g: scale_channel(c.g as int, s) as u32,
        b: scale_channel(c.b as int, s) as u32,
    }
}

/// [`MyColor::convert_to_rgb`], channel by channel.
pub open spec fn spec_to_rgb(c: MyColor) -> Rgb8 {
    Rgb8 {
        r: byte_of_channel(c.r as int) as u8,
        g: byte_of_channel(c.g as int) as u8,
        b: byte_of_channel(c.b as int) as u8,
    }
}

/// [`MyColor::convert_from_rgb`], channel by channel.
pub open spec fn spec_from_rgb(p: Rgb8) -> MyColor {
    MyColor {
        r: channel_of_byte(p.r as int) as u32,
        g: channel_of_byte(p.g as int) as u32,
        b: channel_of_byte(p.b as int) as u32,
    }
}

impl MyColor {
    /// Black, the zero color.
    pub fn new() -> (c: MyColor)
        ensures
            c == (MyColor { r: 0u32, g: 0u32, b: 0u32 }),
    {
        MyColor { r: 0, g: 0, b: 0 }
    }

    /// A color from raw channel values in `COLOR_SCALE` units, clamped so the
    /// result is valid whatever the caller passes.
    pub fn from_channels(r: u32, g: u32, b: u32) -> (c: MyColor)
        ensures
            c == spec_clamp(MyColor { r, g, b }),
            is_clamped(c),
    {
        let raw = MyColor { r, g, b };
        raw.clamp()
    }

    fn clamp_helper(value: u32) -> (r: u32)
        ensures
            r as int == clamp_channel(value as int),
    {
        if value > COLOR_SCALE {
            return COLOR_SCALE;
        }
        value
    }

    /// Makes sure that this color is within 0 to 1 on every channel.
    pub fn clamp(self) -> (r: MyColor)
        ensures
            r == spec_clamp(self),
            is_clamped(r),
    {
        MyColor {
            r: Self::clamp_helper(self.r),
            g: Self::clamp_helper(self.g),
            b: Self::clamp_helper(self.b),
        }
    }

    fn add_channel_sat(a: u32, b: u32) -> (r: u32)
        ensures
            r as int == add_channel(a as int, b as int),
    {
        let s: u64 = a as u64 + b as u64;
        if s > COLOR_SCALE as u64 {
            COLOR_SCALE
        } else {
            s as u32
        }
    }

    /// Adds together two colors; each channel saturates at 1 instead of
    /// overflowing.
    pub fn add(self, other_color: MyColor) -> (r: MyColor)
        ensures
            r == spec_add(self, other_color),
            is_clamped(r),
    {
        MyColor {
            r: Self::add_channel_sat(self.r, other_color.r),
            g: Self::add_channel_sat(self.g, other_color.g),
            b: Self::add_channel_sat(self.b, other_color.b),
        }
    }

    fn scale_channel_sat(c: u32, s: u32) -> (r: u32)
        ensures
            r as int == scale_channel(c as int, s as int),
    {
        proof {
            assert((c as int) * (s as int) <= 0xffff_ffff * 0xffff_ffff) by (nonlinear_arith);
        }
        let p: u64 = (c as u64) * (s as u64);
        let q: u64 = p / (COLOR_SCALE as u64);
        if q > COLOR_SCALE as u64 {
            COLOR_SCALE
        } else {
            q as u32
        }
    }

    /// Multiplies this color by a scalar in `COLOR_SCALE` units and clamps
    /// the result.
    pub fn mult(self, scalar: u32) -> (r: MyColor)
        ensures
            r == spec_mult(self, scalar as int),
            is_clamped(r),
    {
        MyColor {
            r: Self::scale_channel_sat(self.r, scalar),
            g: Self::scale_channel_sat(self.g, scalar),
            b: Self::scale_channel_sat(self.b, scalar),
        }
    }

    fn byte_helper(value: u32) -> (r: u8)
        ensures
            r as int == byte_of_channel(value as int),
    {
        let c = Self::clamp_helper(value);
        ((c + 500) / 1000) as u8
    }

    /// Reduces this color to an 8-bit-per-channel pixel, rounding each
    /// channel to the nearest step.
    pub fn convert_to_rgb(self) -> (r: Rgb8)
        ensures
            r == spec_to_rgb(self),
    {
        Rgb8 {
            r: Self::byte_helper(self.r),
            g: Self::byte_helper(self.g),
            b: Self::byte_helper(self.b),
        }
    }

    /// Widens an 8-bit-per-channel pixel into a color; exact, and the result
    /// is always already clamped.
    pub fn convert_from_rgb(color: Rgb8) -> (c: MyColor)
        ensures
            c == spec_from_rgb(color),
            is_clamped(c),
    {
        let retval = MyColor {
            r: color.r as u32 * 1000,
            g: color.g as u32 * 1000,
            b: color.b as u32 * 1000,
        };
        retval.clamp()
    }
}

/// The visible surface properties of an object: how much of its base color
/// survives ambient shading, as a coefficient in `COLOR_SCALE` units.
#[derive(Clone, Copy, Debug, PartialEq, Eq, Structural)]
pub struct Material {
    pub ambient: u32,
}

impl Material {
    /// A material with the default ambient coefficient, 0.4.
    pub fn new() -> (m: Material)
        ensures
            m == (Material { ambient: DEFAULT_MATERIAL_AMBIENT }),
    {
        Material { ambient: DEFAULT_MATERIAL_AMBIENT }
    }

    /// A material with the given ambient coefficient in `COLOR_SCALE` units.
    pub fn with_ambient(ambient: u32) -> (m: Material)
        ensures
            m == (Material { ambient }),
    {
        Material { ambient }
    }
}

/// [`apply_material`] as a spec-level function.
pub open spec fn spec_apply_material(c: MyColor, scene_ambient: int, material_ambient: int) -> MyColor {
    spec_mult(spec_mult(c, scene_ambient), material_ambient)
}

/// The displayed color of an object under ambient-only shading: its base
/// color attenuated by the product of the scene's global ambient coefficient
/// and the object's own.  Purely multiplicative: no additive light, no
/// directionality, no shadowing.
pub fn apply_material(base_color: MyColor, scene_ambient: u32, material_ambient: u32) -> (r: MyColor)
    ensures
        r == spec_apply_material(base_color, scene_ambient as int, material_ambient as int),
        is_clamped(r),
{
    base_color.mult(scene_ambient).mult(material_ambient)
}

/// Clamping lands every channel in [0, 1], and clamping an already-clamped
/// color changes nothing: clamp is idempotent.
pub proof fn lemma_clamp_idempotent(c: MyColor)
    ensures
        0 <= spec_clamp(c).r <= COLOR_SCALE,
        0 <= spec_clamp(c).g <= COLOR_SCALE,
        0 <= spec_clamp(c).b <= COLOR_SCALE,
        spec_clamp(spec_clamp(c)) == spec_clamp(c),
{
}

/// Addition saturates instead of overflowing: each channel of the sum is the
/// exact channel-wise sum where that fits in [0, 1], and 1 otherwise.
pub proof fn lemma_add_saturates(a: MyColor, b: MyColor)
    ensures
        spec_add(a, b).r <= COLOR_SCALE,
        spec_add(a, b).g <= COLOR_SCALE,
        spec_add(a, b).b <= COLOR_SCALE,
        a.r + b.r <= COLOR_SCALE ==> spec_add(a, b).r == a.r + b.r,
        a.g + b.g <= COLOR_SCALE ==> spec_add(a, b).g == a.g + b.g,
        a.b + b.b <= COLOR_SCALE ==> spec_add(a, b).b == a.b + b.b,
        a.r + b.r > COLOR_SCALE ==> spec_add(a, b).r == COLOR_SCALE,
        a.g + b.g > COLOR_SCALE ==> spec_add(a, b).g == COLOR_SCALE,
        a.b + b.b > COLOR_SCALE ==> spec_add(a, b).b == COLOR_SCALE,
{
}

proof fn lemma_round_trip_channel(v: int)
    requires
        0 <= v <= COLOR_SCALE,
    ensures
        channel_of_byte(byte_of_channel(v)) <= v + (EIGHT_BIT_STEP as int) / 2,
        v <= channel_of_byte(byte_of_channel(v)) + (EIGHT_BIT_STEP as int) / 2,
{
    let s = EIGHT_BIT_STEP as int;
    let w = v + s / 2;
    vstd::arithmetic::div_mod::lemma_fundamental_div_mod(w, s);
    vstd::arithmetic::div_mod::lemma_mod_bound(w, s);
    lemma_mul_is_commutative(s, w / s);
}

/// Converting a valid color to 8 bits per channel and back moves each channel
/// by at most half of one 8-bit quantization step (`EIGHT_BIT_STEP / 2`), so
/// the round trip stays within one quantization step of the original.
pub proof fn lemma_rgb_round_trip(c: MyColor)
    requires
        is_clamped(c),
    ensures
        spec_from_rgb(spec_to_rgb(c)).r <= c.r + EIGHT_BIT_STEP / 2,
        c.r <= spec_from_rgb(spec_to_rgb(c)).r + EIGHT_BIT_STEP / 2,
        spec_from_rgb(spec_to_rgb(c)).g <= c.g + EIGHT_BIT_STEP / 2,
        c.g <= spec_from_rgb(spec_to_rgb(c)).g + EIGHT_BIT_STEP / 2,
        spec_from_rgb(spec_to_rgb(c)).b <= c.b + EIGHT_BIT_STEP / 2,
        c.b <= spec_from_rgb(spec_to_rgb(c)).b + EIGHT_BIT_STEP / 2,
{
    lemma_round_trip_channel(c.r as int);
    lemma_round_trip_channel(c.g as int);
    lemma_round_trip_channel(c.b as int);
}

pub(crate) proof fn lemma_scale_channel_full(v: int)
    ensures
        scale_channel(v, COLOR_SCALE as int) == clamp_channel(v),
{
    let s = COLOR_SCALE as int;
    lemma_div_multiples_vanish(v, s);
    lemma_mul_is_commutative(s, v);
}

/// Full ambient light attenuates nothing: applying a material with both the
/// scene coefficient and the material coefficient at 1.0 returns the base
/// color unchanged, up to the clamping every color operation performs.
pub proof fn lemma_apply_material_full(c: MyColor)
    ensures
        spec_apply_material(c, COLOR_SCALE as int, COLOR_SCALE as int) == spec_clamp(c),
{
    lemma_scale_channel_full(c.r as int);
    lemma_scale_channel_full(c.g as int);
    lemma_scale_channel_full(c.b as int);
    let m = spec_mult(c, COLOR_SCALE as int);
    lemma_scale_channel_full(m.r as int);
    lemma_scale_channel_full(m.g as int);
    lemma_scale_channel_full(m.b as int);
}

proof fn lemma_scale_channel_zero(v: int)
    ensures
        scale_channel(v, 0) == 0,
        scale_channel(0, v) == 0,
{
    assert(v * 0 == 0) by (nonlinear_arith);
    assert(0 * v == 0) by (nonlinear_arith);
}

/// A zero coefficient on either side blacks the color out entirely, whatever
/// the base color and the other coefficient are.
pub proof fn lemma_apply_material_zero(c: MyColor, k: int)
    ensures
        spec_apply_material(c, 0, k) == (MyColor { r: 0u32, g: 0u32, b: 0u32 }),
        spec_apply_material(c, k, 0) == (MyColor { r: 0u32, g: 0u32, b: 0u32 }),
{
    lemma_scale_channel_zero(c.r as int);
    lemma_scale_channel_zero(c.g as int);
    lemma_scale_channel_zero(c.b as int);
    lemma_scale_channel_zero(k);
    let m = spec_mult(c, k);
    lemma_scale_channel_zero(m.r as int);
    lemma_scale_channel_zero(m.g as int);
    lemma_scale_channel_zero(m.b as int);
}

} // verus!
