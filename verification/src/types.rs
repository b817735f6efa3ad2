//! The seven representations as records of three components, and a color in
//! any of them.
//!
//! A component is held as the bit pattern of a binary32 number. Two colors
//! are equal where their components are the same numbers: the two zeros
//! count as one, and a color with a NaN in it equals nothing, itself
//! included.
use crate::binary32::{eq, same, ONE, ZERO};
use crate::color::{carried, convert, Color, Formula, Space};
use vstd::prelude::*;
use vstd::std_specs::cmp::PartialEqSpecImpl;
use vstd::std_specs::convert::FromSpecImpl;

verus! {

/// A color in gamma-encoded red, green, blue. Each field is the bit pattern of a
/// binary32 number.
#[derive(Clone, Copy, Debug)]
pub struct srgb {
    /// Red.
    pub r: u32,
    /// Green.
    pub g: u32,
    /// Blue.
    pub b: u32,
}

impl PartialEq for srgb {
    fn eq(&self, other: &Self) -> (r: bool) {
        eq(self.r, other.r) && eq(self.g, other.g) && eq(self.b, other.b)
    }
}

impl PartialEqSpecImpl for srgb {
    open spec fn obeys_eq_spec() -> bool {
        true
    }

    open spec fn eq_spec(&self, other: &Self) -> bool {
        same(self.r, other.r) && same(self.g, other.g) && same(self.b, other.b)
    }
}

impl Default for srgb {
    /// All three components zero.
    fn default() -> (color: Self)
        ensures
            color.r == ZERO,
            color.g == ZERO,
            color.b == ZERO,
    {
        srgb { r: ZERO, g: ZERO, b: ZERO }
    }
}

impl From<[u32; 3]> for srgb {
    fn from(value: [u32; 3]) -> (color: Self) {
        srgb { r: value[0], g: value[1], b: value[2] }
    }
}

impl FromSpecImpl<[u32; 3]> for srgb {
    open spec fn obeys_from_spec() -> bool {
        true
    }

    open spec fn from_spec(value: [u32; 3]) -> Self {
        srgb { r: value[0], g: value[1], b: value[2] }
    }
}

impl From<srgb> for [u32; 3] {
    fn from(value: srgb) -> (components: Self) {
        [value.r, value.g, value.b]
    }
}

impl FromSpecImpl<srgb> for [u32; 3] {
    open spec fn obeys_from_spec() -> bool {
        true
    }

    open spec fn from_spec(value: srgb) -> Self {
        [value.r, value.g, value.b]
    }
}

impl Color for srgb {
    fn space(&self) -> (space: Space)
        ensures
            space == Space::Srgb,
    {
        Space::Srgb
    }
}

impl srgb {
    /// White.
    pub fn white() -> (color: srgb)
        ensures
            color.r == ONE,
            color.g == ONE,
            color.b == ONE,
    {
        srgb { r: ONE, g: ONE, b: ONE }
    }

    /// Black.
    pub fn black() -> (color: srgb)
        ensures
            color.r == ZERO,
            color.g == ZERO,
            color.b == ZERO,
    {
        srgb { r: ZERO, g: ZERO, b: ZERO }
    }

    /// Red.
    pub fn red() -> (color: srgb)
        ensures
            color.r == ONE,
            color.g == ZERO,
            color.b == ZERO,
    {
        srgb { r: ONE, g: ZERO, b: ZERO }
    }

    /// Yellow.
    pub fn yellow() -> (color: srgb)
        ensures
            color.r == ONE,
            color.g == ONE,
            color.b == ZERO,
    {
        srgb { r: ONE, g: ONE, b: ZERO }
    }

    /// Green.
    pub fn green() -> (color: srgb)
        ensures
            color.r == ZERO,
            color.g == ONE,
            color.b == ZERO,
    {
        srgb { r: ZERO, g: ONE, b: ZERO }
    }

    /// Aqua.
    pub fn aqua() -> (color: srgb)
        ensures
            color.r == ZERO,
            color.g == ONE,
            color.b == ONE,
    {
        srgb { r: ZERO, g: ONE, b: ONE }
    }

    /// Blue.
    pub fn blue() -> (color: srgb)
        ensures
            color.r == ZERO,
            color.g == ZERO,
            color.b == ONE,
    {
        srgb { r: ZERO, g: ZERO, b: ONE }
    }

    /// Purple.
    pub fn purple() -> (color: srgb)
        ensures
            color.r == ONE,
            color.g == ZERO,
            color.b == ONE,
    {
        srgb { r: ONE, g: ZERO, b: ONE }
    }
}

/// A color in linear-light red, green, blue. Each field is the bit pattern of a
/// binary32 number.
#[derive(Clone, Copy, Debug)]
pub struct rgb {
    /// Red.
    pub r: u32,
    /// Green.
    pub g: u32,
    /// Blue.
    pub b: u32,
}

impl PartialEq for rgb {
    fn eq(&self, other: &Self) -> (r: bool) {
        eq(self.r, other.r) && eq(self.g, other.g) && eq(self.b, other.b)
    }
}

impl PartialEqSpecImpl for rgb {
    open spec fn obeys_eq_spec() -> bool {
        true
    }

    open spec fn eq_spec(&self, other: &Self) -> bool {
        same(self.r, other.r) && same(self.g, other.g) && same(self.b, other.b)
    }
}

impl Default for rgb {
    /// All three components zero.
    fn default() -> (color: Self)
        ensures
            color.r == ZERO,
            color.g == ZERO,
            color.b == ZERO,
    {
        rgb { r: ZERO, g: ZERO, b: ZERO }
    }
}

impl From<[u32; 3]> for rgb {
    fn from(value: [u32; 3]) -> (color: Self) {
        rgb { r: value[0], g: value[1], b: value[2] }
    }
}

impl FromSpecImpl<[u32; 3]> for rgb {
    open spec fn obeys_from_spec() -> bool {
        true
    }

    open spec fn from_spec(value: [u32; 3]) -> Self {
        rgb { r: value[0], g: value[1], b: value[2] }
    }
}

impl From<rgb> for [u32; 3] {
    fn from(value: rgb) -> (components: Self) {
        [value.r, value.g, value.b]
    }
}

impl FromSpecImpl<rgb> for [u32; 3] {
    open spec fn obeys_from_spec() -> bool {
        true
    }

    open spec fn from_spec(value: rgb) -> Self {
        [value.r, value.g, value.b]
    }
}

impl Color for rgb {
    fn space(&self) -> (space: Space)
        ensures
            space == Space::Rgb,
    {
        Space::Rgb
    }
}

/// A color in perceptual lightness and two chroma axes. Each field is the bit pattern of a
/// binary32 number.
#[derive(Clone, Copy, Debug)]
pub struct oklab {
    /// Lightness.
    pub l: u32,
    /// The green-red axis.
    pub a: u32,
    /// The blue-yellow axis.
    pub b: u32,
}

impl PartialEq for oklab {
    fn eq(&self, other: &Self) -> (r: bool) {
        eq(self.l, other.l) && eq(self.a, other.a) && eq(self.b, other.b)
    }
}

impl PartialEqSpecImpl for oklab {
    open spec fn obeys_eq_spec() -> bool {
        true
    }

    open spec fn eq_spec(&self, other: &Self) -> bool {
        same(self.l, other.l) && same(self.a, other.a) && same(self.b, other.b)
    }
}

impl Default for oklab {
    /// All three components zero.
    fn default() -> (color: Self)
        ensures
            color.l == ZERO,
            color.a == ZERO,
            color.b == ZERO,
    {
        oklab { l: ZERO, a: ZERO, b: ZERO }
    }
}

impl From<[u32; 3]> for oklab {
    fn from(value: [u32; 3]) -> (color: Self) {
        oklab { l: value[0], a: value[1], b: value[2] }
    }
}

impl FromSpecImpl<[u32; 3]> for oklab {
    open spec fn obeys_from_spec() -> bool {
        true
    }

    open spec fn from_spec(value: [u32; 3]) -> Self {
        oklab { l: value[0], a: value[1], b: value[2] }
    }
}

impl From<oklab> for [u32; 3] {
    fn from(value: oklab) -> (components: Self) {
        [value.l, value.a, value.b]
    }
}

impl FromSpecImpl<oklab> for [u32; 3] {
    open spec fn obeys_from_spec() -> bool {
        true
    }

    open spec fn from_spec(value: oklab) -> Self {
        [value.l, value.a, value.b]
    }
}

impl Color for oklab {
    fn space(&self) -> (space: Space)
        ensures
            space == Space::Oklab,
    {
        Space::Oklab
    }
}

/// A color in hue, saturation, lightness relative to the gamut. Each field is the bit pattern of a
/// binary32 number.
#[derive(Clone, Copy, Debug)]
pub struct okhsl {
    /// Hue, in turns.
    pub h: u32,
    /// Saturation.
    pub s: u32,
    /// Lightness.
    pub l: u32,
}

impl PartialEq for okhsl {
    fn eq(&self, other: &Self) -> (r: bool) {
        eq(self.h, other.h) && eq(self.s, other.s) && eq(self.l, other.l)
    }
}

impl PartialEqSpecImpl for okhsl {
    open spec fn obeys_eq_spec() -> bool {
        true
    }

    open spec fn eq_spec(&self, other: &Self) -> bool {
        same(self.h, other.h) && same(self.s, other.s) && same(self.l, other.l)
    }
}

impl Default for okhsl {
    /// All three components zero.
    fn default() -> (color: Self)
        ensures
            color.h == ZERO,
            color.s == ZERO,
            color.l == ZERO,
    {
        okhsl { h: ZERO, s: ZERO, l: ZERO }
    }
}

impl From<[u32; 3]> for okhsl {
    fn from(value: [u32; 3]) -> (color: Self) {
        okhsl { h: value[0], s: value[1], l: value[2] }
    }
}

impl FromSpecImpl<[u32; 3]> for okhsl {
    open spec fn obeys_from_spec() -> bool {
        true
    }

    open spec fn from_spec(value: [u32; 3]) -> Self {
        okhsl { h: value[0], s: value[1], l: value[2] }
    }
}

impl From<okhsl> for [u32; 3] {
    fn from(value: okhsl) -> (components: Self) {
        [value.h, value.s, value.l]
    }
}

impl FromSpecImpl<okhsl> for [u32; 3] {
    open spec fn obeys_from_spec() -> bool {
        true
    }

    open spec fn from_spec(value: okhsl) -> Self {
        [value.h, value.s, value.l]
    }
}

impl Color for okhsl {
    fn space(&self) -> (space: Space)
        ensures
            space == Space::Okhsl,
    {
        Space::Okhsl
    }
}

/// A color in hue, saturation, value relative to the gamut. Each field is the bit pattern of a
/// binary32 number.
#[derive(Clone, Copy, Debug)]
pub struct okhsv {
    /// Hue, in turns.
    pub h: u32,
    /// Saturation.
    pub s: u32,
    /// Value.
    pub v: u32,
}

impl PartialEq for okhsv {
    fn eq(&self, other: &Self) -> (r: bool) {
        eq(self.h, other.h) && eq(self.s, other.s) && eq(self.v, other.v)
    }
}

impl PartialEqSpecImpl for okhsv {
    open spec fn obeys_eq_spec() -> bool {
        true
    }

    open spec fn eq_spec(&self, other: &Self) -> bool {
        same(self.h, other.h) && same(self.s, other.s) && same(self.v, other.v)
    }
}

impl Default for okhsv {
    /// All three components zero.
    fn default() -> (color: Self)
        ensures
            color.h == ZERO,
            color.s == ZERO,
            color.v == ZERO,
    {
        okhsv { h: ZERO, s: ZERO, v: ZERO }
    }
}

impl From<[u32; 3]> for okhsv {
    fn from(value: [u32; 3]) -> (color: Self) {
        okhsv { h: value[0], s: value[1], v: value[2] }
    }
}

impl FromSpecImpl<[u32; 3]> for okhsv {
    open spec fn obeys_from_spec() -> bool {
        true
    }

    open spec fn from_spec(value: [u32; 3]) -> Self {
        okhsv { h: value[0], s: value[1], v: value[2] }
    }
}

impl From<okhsv> for [u32; 3] {
    fn from(value: okhsv) -> (components: Self) {
        [value.h, value.s, value.v]
    }
}

impl FromSpecImpl<okhsv> for [u32; 3] {
    open spec fn obeys_from_spec() -> bool {
        true
    }

    open spec fn from_spec(value: okhsv) -> Self {
        [value.h, value.s, value.v]
    }
}

impl Color for okhsv {
    fn space(&self) -> (space: Space)
        ensures
            space == Space::Okhsv,
    {
        Space::Okhsv
    }
}

/// A color in classic hue, saturation, lightness. Each field is the bit pattern of a
/// binary32 number.
#[derive(Clone, Copy, Debug)]
pub struct hsl {
    /// Hue, in turns.
    pub h: u32,
    /// Saturation.
    pub s: u32,
    /// Lightness.
    pub l: u32,
}

impl PartialEq for hsl {
    fn eq(&self, other: &Self) -> (r: bool) {
        eq(self.h, other.h) && eq(self.s, other.s) && eq(self.l, other.l)
    }
}

impl PartialEqSpecImpl for hsl {
    open spec fn obeys_eq_spec() -> bool {
        true
    }

    open spec fn eq_spec(&self, other: &Self) -> bool {
        same(self.h, other.h) && same(self.s, other.s) && same(self.l, other.l)
    }
}

impl Default for hsl {
    /// All three components zero.
    fn default() -> (color: Self)
        ensures
            color.h == ZERO,
            color.s == ZERO,
            color.l == ZERO,
    {
        hsl { h: ZERO, s: ZERO, l: ZERO }
    }
}

impl From<[u32; 3]> for hsl {
    fn from(value: [u32; 3]) -> (color: Self) {
        hsl { h: value[0], s: value[1], l: value[2] }
    }
}

impl FromSpecImpl<[u32; 3]> for hsl {
    open spec fn obeys_from_spec() -> bool {
        true
    }

    open spec fn from_spec(value: [u32; 3]) -> Self {
        hsl { h: value[0], s: value[1], l: value[2] }
    }
}

impl From<hsl> for [u32; 3] {
    fn from(value: hsl) -> (components: Self) {
        [value.h, value.s, value.l]
    }
}

impl FromSpecImpl<hsl> for [u32; 3] {
    open spec fn obeys_from_spec() -> bool {
        true
    }

    open spec fn from_spec(value: hsl) -> Self {
        [value.h, value.s, value.l]
    }
}

impl Color for hsl {
    fn space(&self) -> (space: Space)
        ensures
            space == Space::Hsl,
    {
        Space::Hsl
    }
}

/// A color in classic hue, saturation, value. Each field is the bit pattern of a
/// binary32 number.
#[derive(Clone, Copy, Debug)]
pub struct hsv {
    /// Hue, in turns.
    pub h: u32,
    /// Saturation.
    pub s: u32,
    /// Value.
    pub v: u32,
}

impl PartialEq for hsv {
    fn eq(&self, other: &Self) -> (r: bool) {
        eq(self.h, other.h) && eq(self.s, other.s) && eq(self.v, other.v)
    }
}

impl PartialEqSpecImpl for hsv {
    open spec fn obeys_eq_spec() -> bool {
        true
    }

    open spec fn eq_spec(&self, other: &Self) -> bool {
        same(self.h, other.h) && same(self.s, other.s) && same(self.v, other.v)
    }
}

impl Default for hsv {
    /// All three components zero.
    fn default() -> (color: Self)
        ensures
            color.h == ZERO,
            color.s == ZERO,
            color.v == ZERO,
    {
        hsv { h: ZERO, s: ZERO, v: ZERO }
    }
}

impl From<[u32; 3]> for hsv {
    fn from(value: [u32; 3]) -> (color: Self) {
        hsv { h: value[0], s: value[1], v: value[2] }
    }
}

impl FromSpecImpl<[u32; 3]> for hsv {
    open spec fn obeys_from_spec() -> bool {
        true
    }

    open spec fn from_spec(value: [u32; 3]) -> Self {
        hsv { h: value[0], s: value[1], v: value[2] }
    }
}

impl From<hsv> for [u32; 3] {
    fn from(value: hsv) -> (components: Self) {
        [value.h, value.s, value.v]
    }
}

impl FromSpecImpl<hsv> for [u32; 3] {
    open spec fn obeys_from_spec() -> bool {
        true
    }

    open spec fn from_spec(value: hsv) -> Self {
        [value.h, value.s, value.v]
    }
}

impl Color for hsv {
    fn space(&self) -> (space: Space)
        ensures
            space == Space::Hsv,
    {
        Space::Hsv
    }
}

/// A color in any of the seven representations.
#[derive(Clone, Copy, Debug)]
pub enum AnyColor {
    Srgb(srgb),
    Rgb(rgb),
    Oklab(oklab),
    Okhsl(okhsl),
    Okhsv(okhsv),
    Hsl(hsl),
    Hsv(hsv),
}

impl AnyColor {
    /// The representation that the color is written in.
    pub open spec fn tag(self) -> Space {
        match self {
            AnyColor::Srgb(_) => Space::Srgb,
            AnyColor::Rgb(_) => Space::Rgb,
            AnyColor::Oklab(_) => Space::Oklab,
            AnyColor::Okhsl(_) => Space::Okhsl,
            AnyColor::Okhsv(_) => Space::Okhsv,
            AnyColor::Hsl(_) => Space::Hsl,
            AnyColor::Hsv(_) => Space::Hsv,
        }
    }

    /// The three components, in the order of the representation's fields.
    pub open spec fn parts(self) -> [u32; 3] {
        match self {
            AnyColor::Srgb(c) => [c.r, c.g, c.b],
            AnyColor::Rgb(c) => [c.r, c.g, c.b],
            AnyColor::Oklab(c) => [c.l, c.a, c.b],
            AnyColor::Okhsl(c) => [c.h, c.s, c.l],
            AnyColor::Okhsv(c) => [c.h, c.s, c.v],
            AnyColor::Hsl(c) => [c.h, c.s, c.l],
            AnyColor::Hsv(c) => [c.h, c.s, c.v],
        }
    }

    /// The color in `space` with the three components given.
    pub fn new(space: Space, components: [u32; 3]) -> (color: AnyColor)
        ensures
            color.tag() == space,
            color.parts() == components,
    {
        let color = match space {
            Space::Srgb => AnyColor::Srgb(srgb {
                r: components[0],
                g: components[1],
                b: components[2],
            }),
            Space::Rgb => AnyColor::Rgb(rgb {
                r: components[0],
                g: components[1],
                b: components[2],
            }),
            Space::Oklab => AnyColor::Oklab(oklab {
                l: components[0],
                a: components[1],
                b: components[2],
            }),
            Space::Okhsl => AnyColor::Okhsl(okhsl {
                h: components[0],
                s: components[1],
                l: components[2],
            }),
            Space::Okhsv => AnyColor::Okhsv(okhsv {
                h: components[0],
                s: components[1],
                v: components[2],
            }),
            Space::Hsl => AnyColor::Hsl(hsl {
                h: components[0],
                s: components[1],
                l: components[2],
            }),
            Space::Hsv => AnyColor::Hsv(hsv {
                h: components[0],
                s: components[1],
                v: components[2],
            }),
        };
        assert(color.parts() =~= components);
        color
    }

    /// The three components, in the order of the representation's fields.
    pub fn components(self) -> (components: [u32; 3])
        ensures
            components == self.parts(),
    {
        match self {
            AnyColor::Srgb(c) => [c.r, c.g, c.b],
            AnyColor::Rgb(c) => [c.r, c.g, c.b],
            AnyColor::Oklab(c) => [c.l, c.a, c.b],
            AnyColor::Okhsl(c) => [c.h, c.s, c.l],
            AnyColor::Okhsv(c) => [c.h, c.s, c.v],
            AnyColor::Hsl(c) => [c.h, c.s, c.l],
            AnyColor::Hsv(c) => [c.h, c.s, c.v],
        }
    }

    /// The color in the representation `target`. `step` does the arithmetic
    /// of the twelve formulas, from three components to three components;
    /// it is applied along the way from the representation of the color to
    /// `target`, as `convert` applies it.
    pub fn to<F>(self, target: Space, step: F) -> (out: AnyColor) where
        F: Fn([u32; 3], Formula) -> [u32; 3],

        requires
            forall|c: [u32; 3], formula: Formula|
                self.tag().chain(target).contains(formula) ==> call_requires(step, (c, formula)),
        ensures
            out.tag() == target,
            carried(step, self.parts(), self.tag().chain(target), out.parts()),
    {
        let from = self.space();
        AnyColor::new(target, convert(self.components(), from, target, step))
    }
}

impl Color for AnyColor {
    fn space(&self) -> (space: Space)
        ensures
            space == self.tag(),
    {
        match self {
            AnyColor::Srgb(_) => Space::Srgb,
            AnyColor::Rgb(_) => Space::Rgb,
            AnyColor::Oklab(_) => Space::Oklab,
            AnyColor::Okhsl(_) => Space::Okhsl,
            AnyColor::Okhsv(_) => Space::Okhsv,
            AnyColor::Hsl(_) => Space::Hsl,
            AnyColor::Hsv(_) => Space::Hsv,
        }
    }
}

impl PartialEq for AnyColor {
    fn eq(&self, other: &Self) -> (r: bool) {
        match (*self, *other) {
            (AnyColor::Srgb(a), AnyColor::Srgb(b)) => a == b,
            (AnyColor::Rgb(a), AnyColor::Rgb(b)) => a == b,
            (AnyColor::Oklab(a), AnyColor::Oklab(b)) => a == b,
            (AnyColor::Okhsl(a), AnyColor::Okhsl(b)) => a == b,
            (AnyColor::Okhsv(a), AnyColor::Okhsv(b)) => a == b,
            (AnyColor::Hsl(a), AnyColor::Hsl(b)) => a == b,
            (AnyColor::Hsv(a), AnyColor::Hsv(b)) => a == b,
            _ => false,
        }
    }
}

impl PartialEqSpecImpl for AnyColor {
    open spec fn obeys_eq_spec() -> bool {
        true
    }

    open spec fn eq_spec(&self, other: &Self) -> bool {
        match (*self, *other) {
            (AnyColor::Srgb(a), AnyColor::Srgb(b)) => same(a.r, b.r) && same(
                a.g,
                b.g,
            ) && same(a.b, b.b),
            (AnyColor::Rgb(a), AnyColor::Rgb(b)) => same(a.r, b.r) && same(
                a.g,
                b.g,
            ) && same(a.b, b.b),
            (AnyColor::Oklab(a), AnyColor::Oklab(b)) => same(a.l, b.l) && same(
                a.a,
                b.a,
            ) && same(a.b, b.b),
            (AnyColor::Okhsl(a), AnyColor::Okhsl(b)) => same(a.h, b.h) && same(
                a.s,
                b.s,
            ) && same(a.l, b.l),
            (AnyColor::Okhsv(a), AnyColor::Okhsv(b)) => same(a.h, b.h) && same(
                a.s,
                b.s,
            ) && same(a.v, b.v),
            (AnyColor::Hsl(a), AnyColor::Hsl(b)) => same(a.h, b.h) && same(
                a.s,
                b.s,
            ) && same(a.l, b.l),
            (AnyColor::Hsv(a), AnyColor::Hsv(b)) => same(a.h, b.h) && same(
                a.s,
                b.s,
            ) && same(a.v, b.v),
            _ => false,
        }
    }
}

} // verus!
