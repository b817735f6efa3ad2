//! Classic hue, saturation and lightness or value: the choices between the
//! formulas of the conversions to and from gamma-encoded red, green, blue.
//!
//! Each conversion is a handful of closed formulas and a rule that says which
//! of them applies. The rules are here, on the bit patterns of the
//! components; the arithmetic of the formulas is the caller's.
use crate::binary32::{
    eq, gt, larger, less, lt, max, min, nan, same, scaled, smaller, HALF, ZERO,
};
use crate::types::{hsl, srgb};
use vstd::arithmetic::power2::{lemma2_to64, lemma_pow2_adds, lemma_pow2_pos, pow2};
use vstd::prelude::*;

verus! {

/// The binary32 number nearest to one sixth.
pub const ONE_SIXTH: u32 = 0x3E2A_AAABu32;

/// The binary32 number nearest to two thirds.
pub const TWO_THIRDS: u32 = 0x3F2A_AAABu32;

/// The formula that gives the hue of a red, green, blue triple. `d` is the
/// largest channel less the smallest; each formula's result is divided by six.
#[derive(Clone, Copy, Debug, PartialEq, Eq, Structural)]
pub enum Sector {
    /// The largest and the smallest channel are the same number: hue 0.
    Gray,
    /// Red is the largest: `(g - b) / d`, and 6 more where `wrapped`, which is
    /// when green is below blue.
    Red { wrapped: bool },
    /// Green is the largest and red is not: `(b - r) / d + 2`.
    Green,
    /// Blue alone is the largest: `(r - g) / d + 4`.
    Blue,
    /// No channel is a number: hue 0.
    Undefined,
}

/// The formula that gives the saturation in hue, saturation, lightness.
#[derive(Clone, Copy, Debug, PartialEq, Eq, Structural)]
pub enum HslSaturation {
    /// The largest and the smallest channel are the same number:
    /// saturation 0.
    Zero,
    /// Lightness above one half: `d / (2 - largest - smallest)`.
    Light,
    /// Otherwise: `d / (largest + smallest)`.
    Dark,
}

/// How a red, green, blue triple becomes hue, saturation, lightness.
#[derive(Clone, Copy, Debug, PartialEq, Eq, Structural)]
pub struct HslPlan {
    pub hue: Sector,
    pub saturation: HslSaturation,
}

/// How a red, green, blue triple becomes hue, saturation, value.
#[derive(Clone, Copy, Debug, PartialEq, Eq, Structural)]
pub struct HsvPlan {
    pub hue: Sector,
    /// The largest channel is zero: saturation 0, not `d / largest`.
    pub black: bool,
}

/// How hue, saturation, lightness become red, green, blue: through two
/// levels `p` and `q`, with `p = 2 * l - q`.
#[derive(Clone, Copy, Debug, PartialEq)]
pub enum Mix {
    /// Saturation is zero: all three channels are the lightness. This is the
    /// finished color.
    Gray(srgb),
    /// Lightness below one half: `q = l * (1 + s)`.
    Dark,
    /// Otherwise: `q = l + s - l * s`.
    Light,
}

/// The piece of the curve that takes a channel's hue offset `t`, between 0
/// and 1, to its level between `p` and `q`.
#[derive(Clone, Copy, Debug, PartialEq, Eq, Structural)]
pub enum Ramp {
    /// Below one sixth: `p + (q - p) * 6 * t`.
    Rising,
    /// From there to below one half: `q`.
    High,
    /// From there to below two thirds: `p + (q - p) * (2/3 - t) * 6`.
    Falling,
    /// From two thirds on, and for a NaN: `p`.
    Low,
}

/// The largest of three channels, NaNs set aside.
pub open spec fn largest(r: u32, g: u32, b: u32) -> u32 {
    larger(r, larger(g, b))
}

/// The smallest of three channels, NaNs set aside.
pub open spec fn smallest(r: u32, g: u32, b: u32) -> u32 {
    smaller(r, smaller(g, b))
}

/// Whether the largest and the smallest channel of a color are the same
/// number.
pub open spec fn gray(color: srgb) -> bool {
    same(largest(color.r, color.g, color.b), smallest(color.r, color.g, color.b))
}

/// The hue formula of a color: `Gray` for a gray, else the first channel in
/// the order red, green, blue that is the same number as the largest.
pub open spec fn sector_of(color: srgb) -> Sector {
    let hi = largest(color.r, color.g, color.b);
    if gray(color) {
        Sector::Gray
    } else if same(hi, color.r) {
        Sector::Red { wrapped: less(color.g, color.b) }
    } else if same(hi, color.g) {
        Sector::Green
    } else if same(hi, color.b) {
        Sector::Blue
    } else {
        Sector::Undefined
    }
}

/// The saturation formula of a color whose lightness is `l`.
pub open spec fn hsl_saturation_of(color: srgb, l: u32) -> HslSaturation {
    if gray(color) {
        HslSaturation::Zero
    } else if less(HALF, l) {
        HslSaturation::Light
    } else {
        HslSaturation::Dark
    }
}

/// Whether the largest channel of a color is zero.
pub open spec fn black(color: srgb) -> bool {
    same(largest(color.r, color.g, color.b), ZERO)
}

/// The mix for a color in hue, saturation, lightness.
pub open spec fn mix_of(color: hsl) -> Mix {
    if same(color.s, ZERO) {
        Mix::Gray(srgb { r: color.l, g: color.l, b: color.l })
    } else if less(color.l, HALF) {
        Mix::Dark
    } else {
        Mix::Light
    }
}

/// The piece of the curve at hue offset `t`.
pub open spec fn ramp_of(t: u32) -> Ramp {
    if less(t, ONE_SIXTH) {
        Ramp::Rising
    } else if less(t, HALF) {
        Ramp::High
    } else if less(t, TWO_THIRDS) {
        Ramp::Falling
    } else {
        Ramp::Low
    }
}

/// The color for the hue index `i`, which counts sixths of the hue circle,
/// out of the value `v` and the three levels `p`, `q`, `t` below it. The
/// index is taken around the circle; a negative index that is no multiple of
/// six gives black.
pub open spec fn arranged(i: int, v: u32, p: u32, q: u32, t: u32) -> srgb {
    if i % 6 == 0 {
        srgb { r: v, g: t, b: p }
    } else if i < 0 {
        srgb { r: ZERO, g: ZERO, b: ZERO }
    } else if i % 6 == 1 {
        srgb { r: q, g: v, b: p }
    } else if i % 6 == 2 {
        srgb { r: p, g: v, b: t }
    } else if i % 6 == 3 {
        srgb { r: p, g: q, b: v }
    } else if i % 6 == 4 {
        srgb { r: t, g: p, b: v }
    } else {
        srgb { r: v, g: p, b: q }
    }
}

/// The largest of three channels.
pub fn max3(r: u32, g: u32, b: u32) -> (hi: u32)
    ensures
        hi == largest(r, g, b),
{
    max(r, max(g, b))
}

/// The smallest of three channels.
pub fn min3(r: u32, g: u32, b: u32) -> (lo: u32)
    ensures
        lo == smallest(r, g, b),
{
    min(r, min(g, b))
}

/// Whether `color` is a gray.
pub fn is_gray(color: srgb) -> (r: bool)
    ensures
        r == gray(color),
{
    eq(max3(color.r, color.g, color.b), min3(color.r, color.g, color.b))
}

/// The hue formula of `color`.
pub fn hue_sector(color: srgb) -> (sector: Sector)
    ensures
        sector == sector_of(color),
{
    let hi = max3(color.r, color.g, color.b);
    if is_gray(color) {
        Sector::Gray
    } else if eq(hi, color.r) {
        Sector::Red { wrapped: lt(color.g, color.b) }
    } else if eq(hi, color.g) {
        Sector::Green
    } else if eq(hi, color.b) {
        Sector::Blue
    } else {
        Sector::Undefined
    }
}

/// The formulas that take `color` to hue, saturation, lightness. `l` is the
/// lightness, half the sum of the largest and the smallest channel.
pub fn hsl_plan(color: srgb, l: u32) -> (plan: HslPlan)
    ensures
        plan.hue == sector_of(color),
        plan.saturation == hsl_saturation_of(color, l),
{
    let saturation = if is_gray(color) {
        HslSaturation::Zero
    } else if gt(l, HALF) {
        HslSaturation::Light
    } else {
        HslSaturation::Dark
    };
    HslPlan { hue: hue_sector(color), saturation }
}

/// The formulas that take `color` to hue, saturation, value.
pub fn hsv_plan(color: srgb) -> (plan: HsvPlan)
    ensures
        plan.hue == sector_of(color),
        plan.black == black(color),
{
    HsvPlan { hue: hue_sector(color), black: eq(max3(color.r, color.g, color.b), ZERO) }
}

/// The mix that takes `color` to red, green, blue, and the finished color
/// where that is a gray.
pub fn srgb_mix(color: hsl) -> (mix: Mix)
    ensures
        mix == mix_of(color),
{
    if eq(color.s, ZERO) {
        Mix::Gray(srgb { r: color.l, g: color.l, b: color.l })
    } else if lt(color.l, HALF) {
        Mix::Dark
    } else {
        Mix::Light
    }
}

/// The piece of the curve at hue offset `t`.
pub fn hue_ramp(t: u32) -> (ramp: Ramp)
    ensures
        ramp == ramp_of(t),
{
    if lt(t, ONE_SIXTH) {
        Ramp::Rising
    } else if lt(t, HALF) {
        Ramp::High
    } else if lt(t, TWO_THIRDS) {
        Ramp::Falling
    } else {
        Ramp::Low
    }
}

/// The color for the hue index `i` out of `v`, `p`, `q` and `t`.
pub fn srgb_from_sextant(i: i32, v: u32, p: u32, q: u32, t: u32) -> (color: srgb)
    ensures
        color == arranged(i as int, v, p, q, t),
{
    let sextant: i32 = i % 6;
    if sextant == 0 {
        srgb { r: v, g: t, b: p }
    } else if sextant == 1 {
        srgb { r: q, g: v, b: p }
    } else if sextant == 2 {
        srgb { r: p, g: v, b: t }
    } else if sextant == 3 {
        srgb { r: p, g: q, b: v }
    } else if sextant == 4 {
        srgb { r: t, g: p, b: v }
    } else if sextant == 5 {
        srgb { r: v, g: p, b: q }
    } else {
        srgb { r: ZERO, g: ZERO, b: ZERO }
    }
}

/// A gray has no hue and no saturation: where the three channels are the
/// same number, the hue formula is `Gray` in both classic polar spaces, and
/// the saturation formula of hue, saturation, lightness is `Zero`, whatever
/// the lightness.
pub proof fn lemma_gray_has_no_hue(color: srgb, l: u32)
    requires
        same(color.r, color.g),
        same(color.g, color.b),
    ensures
        gray(color),
        sector_of(color) == Sector::Gray,
        hsl_saturation_of(color, l) == HslSaturation::Zero,
{
}

/// A color without saturation comes back as the gray of its lightness,
/// whatever its hue.
pub proof fn lemma_no_saturation_is_gray(color: hsl)
    requires
        same(color.s, ZERO),
    ensures
        mix_of(color) == Mix::Gray(srgb { r: color.l, g: color.l, b: color.l }),
        !nan(color.l) ==> gray(srgb { r: color.l, g: color.l, b: color.l }),
{
}

/// Of three numbers, the hue formula is that of the largest channel, red
/// before green before blue, and `Gray` only where all three are the same.
pub proof fn lemma_sector_of_numbers(color: srgb)
    requires
        !nan(color.r),
        !nan(color.g),
        !nan(color.b),
    ensures
        gray(color) <==> scaled(color.r) == scaled(color.g) && scaled(color.g) == scaled(color.b),
        sector_of(color) == Sector::Gray <==> gray(color),
        sector_of(color) is Red <==> scaled(color.r) >= scaled(color.g) && scaled(color.r)
            >= scaled(color.b) && !gray(color),
        sector_of(color) is Red ==> (sector_of(color)->wrapped <==> scaled(color.g) < scaled(
            color.b,
        )),
        sector_of(color) == Sector::Green <==> scaled(color.g) > scaled(color.r) && scaled(color.g)
            >= scaled(color.b),
        sector_of(color) == Sector::Blue <==> scaled(color.b) > scaled(color.r) && scaled(color.b)
            > scaled(color.g),
        sector_of(color) != Sector::Undefined,
{
}

/// The hue formula is `Undefined` exactly where no channel is a number. One
/// number among NaNs is a gray.
pub proof fn lemma_sector_of_nans(color: srgb)
    ensures
        sector_of(color) == Sector::Undefined <==> nan(color.r) && nan(color.g) && nan(color.b),
        !nan(color.r) && nan(color.g) && nan(color.b) ==> gray(color),
        nan(color.r) && !nan(color.g) && nan(color.b) ==> gray(color),
        nan(color.r) && nan(color.g) && !nan(color.b) ==> gray(color),
{
}

/// The hue index goes around the circle: six sixths further on, the
/// arrangement is the same.
pub proof fn lemma_arranged_is_cyclic(i: int, v: u32, p: u32, q: u32, t: u32)
    requires
        i >= 0,
    ensures
        arranged(i + 6, v, p, q, t) == arranged(i, v, p, q, t),
{
}

/// The sector that covers the sextant of hue index `i`: red without wrap for
/// the first sextant, green for the next two, blue for the two after, red
/// with wrap for the last.
pub open spec fn sector_over(i: int) -> Sector {
    if i % 6 == 0 {
        Sector::Red { wrapped: false }
    } else if i % 6 == 1 || i % 6 == 2 {
        Sector::Green
    } else if i % 6 == 3 || i % 6 == 4 {
        Sector::Blue
    } else {
        Sector::Red { wrapped: true }
    }
}

/// A color arranged for a sextant has its hue found again by the formula of
/// the sector over that sextant, where the levels lie strictly between the
/// lowest level and the value.
pub proof fn lemma_sextant_sector(i: int, v: u32, p: u32, q: u32, t: u32)
    requires
        i >= 0,
        less(p, q),
        less(q, v),
        less(p, t),
        less(t, v),
    ensures
        sector_of(arranged(i, v, p, q, t)) == sector_over(i),
        black(arranged(i, v, p, q, t)) == same(v, ZERO),
{
}

/// The two constants are the binary32 numbers nearest to one sixth and to
/// two thirds. Six times the one is above 1 by two units in its last place,
/// where half a step of the constant would make three; three times the other
/// is above 2 by one unit in its last place, where half a step would make
/// one and a half. They lie on either side of one half.
pub proof fn lemma_thresholds()
    ensures
        6 * scaled(ONE_SIXTH) - pow2(149) == 2 * pow2(123),
        scaled((ONE_SIXTH + 1) as u32) - scaled(ONE_SIXTH) == pow2(123),
        3 * scaled(TWO_THIRDS) - 2 * pow2(149) == pow2(125),
        scaled((TWO_THIRDS + 1) as u32) - scaled(TWO_THIRDS) == pow2(125),
        less(ZERO, ONE_SIXTH),
        less(ONE_SIXTH, HALF),
        less(HALF, TWO_THIRDS),
{
    lemma2_to64();
    lemma_pow2_pos(123);
    lemma_pow2_adds(123, 26);
    lemma_pow2_adds(123, 2);
    let u = pow2(123) as int;
    assert(scaled(HALF) == 0x80_0000 * pow2(125));
    assert(scaled(ONE_SIXTH) == 0xAA_AAAB * pow2(123));
    assert(scaled((ONE_SIXTH + 1) as u32) == 0xAA_AAAC * pow2(123));
    assert(scaled(TWO_THIRDS) == 0xAA_AAAB * pow2(125));
    assert(scaled((TWO_THIRDS + 1) as u32) == 0xAA_AAAC * pow2(125));
    assert(pow2(125) == 4 * u);
    assert(pow2(149) == 0x400_0000 * u);
    assert(0x80_0000 * (4 * u) == 0x200_0000 * u) by (nonlinear_arith);
    assert(0xAA_AAAB * (4 * u) == 0x2AA_AAAC * u) by (nonlinear_arith);
    assert(0xAA_AAAC * (4 * u) == 0x2AA_AAB0 * u) by (nonlinear_arith);
    assert(6 * (0xAA_AAAB * u) == 0x400_0002 * u) by (nonlinear_arith);
    assert(3 * (0x2AA_AAAC * u) == 0x800_0004 * u) by (nonlinear_arith);
    assert(0xAA_AAAC * u - 0xAA_AAAB * u == u) by (nonlinear_arith);
    assert(0x2AA_AAB0 * u - 0x2AA_AAAC * u == 4 * u) by (nonlinear_arith);
    assert(0x400_0002 * u - 0x400_0000 * u == 2 * u) by (nonlinear_arith);
    assert(0x800_0004 * u - 2 * (0x400_0000 * u) == 4 * u) by (nonlinear_arith);
    assert(0 < 0xAA_AAAB * u < 0x200_0000 * u < 0x2AA_AAAC * u) by (nonlinear_arith)
        requires
            u > 0,
    ;
}

} // verus!
