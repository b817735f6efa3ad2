use tinycolors::binary32::{ONE, ZERO};
use tinycolors::{hsl, hsv, okhsl, okhsv, oklab, rgb, srgb, AnyColor, Color, Formula, Space};

const NAN: u32 = 0x7FC0_0000;
const MINUS_ZERO: u32 = 0x8000_0000;

#[test]
fn colors_are_equal_where_their_components_are_the_same_numbers() {
    let a = srgb { r: 1.0f32.to_bits(), g: 0.5f32.to_bits(), b: 0.25f32.to_bits() };
    let b = srgb::from([1.0f32.to_bits(), 0.5f32.to_bits(), 0.25f32.to_bits()]);
    assert_eq!(a, b);
    assert_ne!(a, srgb { r: 1.0f32.to_bits(), g: 0.5f32.to_bits(), b: 0.25f32.to_bits() + 1 });
    assert_ne!(a, srgb { r: a.r + 1, g: a.g, b: a.b });
    assert_ne!(a, srgb { r: a.r, g: a.g + 1, b: a.b });
}

#[test]
fn the_two_zeros_make_one_color() {
    assert_eq!(srgb { r: ZERO, g: MINUS_ZERO, b: ZERO }, srgb { r: MINUS_ZERO, g: ZERO, b: ZERO });
    assert_eq!(rgb { r: ZERO, g: ZERO, b: MINUS_ZERO }, rgb::default());
    assert_eq!(oklab { l: MINUS_ZERO, a: ZERO, b: ZERO }, oklab::default());
    assert_eq!(okhsl { h: ZERO, s: MINUS_ZERO, l: ZERO }, okhsl::default());
    assert_eq!(okhsv { h: ZERO, s: ZERO, v: MINUS_ZERO }, okhsv::default());
    assert_eq!(hsl { h: MINUS_ZERO, s: MINUS_ZERO, l: MINUS_ZERO }, hsl::default());
    assert_eq!(hsv { h: ZERO, s: MINUS_ZERO, v: ZERO }, hsv::default());
}

#[test]
fn a_color_with_a_nan_equals_nothing() {
    let a = hsl { h: NAN, s: ONE, l: ONE };
    assert_ne!(a, a);
    let b = srgb { r: ONE, g: NAN, b: ONE };
    #[allow(clippy::eq_op)]
    let same = b == b;
    assert!(!same);
    assert_ne!(oklab { l: ONE, a: ONE, b: NAN }, oklab { l: ONE, a: ONE, b: NAN });
    assert_ne!(AnyColor::Hsv(hsv { h: NAN, s: ZERO, v: ZERO }), AnyColor::Hsv(hsv { h: NAN, s: ZERO, v: ZERO }));
}

#[test]
fn equality_agrees_with_the_numbers() {
    let samples = [0.0f32, -0.0, 0.5, 1.0, -1.0, f32::INFINITY, f32::NAN];
    for x in samples {
        for y in samples {
            let a = okhsv { h: x.to_bits(), s: ONE, v: y.to_bits() };
            let b = okhsv { h: y.to_bits(), s: ONE, v: x.to_bits() };
            assert_eq!(a == b, x == y, "{x} {y}");
            let c = rgb { r: ONE, g: x.to_bits(), b: ONE };
            let d = rgb { r: ONE, g: y.to_bits(), b: ONE };
            assert_eq!(c == d, x == y, "{x} {y}");
        }
    }
}

#[test]
fn default_is_all_zero() {
    assert_eq!(<[u32; 3]>::from(srgb::default()), [0, 0, 0]);
    assert_eq!(<[u32; 3]>::from(rgb::default()), [0, 0, 0]);
    assert_eq!(<[u32; 3]>::from(oklab::default()), [0, 0, 0]);
    assert_eq!(<[u32; 3]>::from(okhsl::default()), [0, 0, 0]);
    assert_eq!(<[u32; 3]>::from(okhsv::default()), [0, 0, 0]);
    assert_eq!(<[u32; 3]>::from(hsl::default()), [0, 0, 0]);
    assert_eq!(<[u32; 3]>::from(hsv::default()), [0, 0, 0]);
}

#[test]
fn arrays_hold_the_fields_in_order() {
    let c = srgb::from([1, 2, 3]);
    assert_eq!((c.r, c.g, c.b), (1, 2, 3));
    let c = rgb::from([1, 2, 3]);
    assert_eq!((c.r, c.g, c.b), (1, 2, 3));
    let c = oklab::from([1, 2, 3]);
    assert_eq!((c.l, c.a, c.b), (1, 2, 3));
    let c = okhsl::from([1, 2, 3]);
    assert_eq!((c.h, c.s, c.l), (1, 2, 3));
    let c = okhsv::from([1, 2, 3]);
    assert_eq!((c.h, c.s, c.v), (1, 2, 3));
    let c = hsl::from([1, 2, 3]);
    assert_eq!((c.h, c.s, c.l), (1, 2, 3));
    let c = hsv::from([1, 2, 3]);
    assert_eq!((c.h, c.s, c.v), (1, 2, 3));

    let a: [u32; 3] = srgb { r: 4, g: 5, b: 6 }.into();
    assert_eq!(a, [4, 5, 6]);
    let a: [u32; 3] = rgb { r: 4, g: 5, b: 6 }.into();
    assert_eq!(a, [4, 5, 6]);
    let a: [u32; 3] = oklab { l: 4, a: 5, b: 6 }.into();
    assert_eq!(a, [4, 5, 6]);
    let a: [u32; 3] = okhsl { h: 4, s: 5, l: 6 }.into();
    assert_eq!(a, [4, 5, 6]);
    let a: [u32; 3] = okhsv { h: 4, s: 5, v: 6 }.into();
    assert_eq!(a, [4, 5, 6]);
    let a: [u32; 3] = hsl { h: 4, s: 5, l: 6 }.into();
    assert_eq!(a, [4, 5, 6]);
    let a: [u32; 3] = hsv { h: 4, s: 5, v: 6 }.into();
    assert_eq!(a, [4, 5, 6]);
}

#[test]
fn every_color_knows_its_space() {
    assert_eq!(srgb::default().space(), Space::Srgb);
    assert_eq!(rgb::default().space(), Space::Rgb);
    assert_eq!(oklab::default().space(), Space::Oklab);
    assert_eq!(okhsl::default().space(), Space::Okhsl);
    assert_eq!(okhsv::default().space(), Space::Okhsv);
    assert_eq!(hsl::default().space(), Space::Hsl);
    assert_eq!(hsv::default().space(), Space::Hsv);
}

#[test]
fn named_colors() {
    let one = 1.0f32.to_bits();
    let zero = 0.0f32.to_bits();
    assert_eq!(<[u32; 3]>::from(srgb::white()), [one, one, one]);
    assert_eq!(<[u32; 3]>::from(srgb::black()), [zero, zero, zero]);
    assert_eq!(<[u32; 3]>::from(srgb::red()), [one, zero, zero]);
    assert_eq!(<[u32; 3]>::from(srgb::yellow()), [one, one, zero]);
    assert_eq!(<[u32; 3]>::from(srgb::green()), [zero, one, zero]);
    assert_eq!(<[u32; 3]>::from(srgb::aqua()), [zero, one, one]);
    assert_eq!(<[u32; 3]>::from(srgb::blue()), [zero, zero, one]);
    assert_eq!(<[u32; 3]>::from(srgb::purple()), [one, zero, one]);
}

const ALL: [Space; 7] = [
    Space::Srgb,
    Space::Rgb,
    Space::Oklab,
    Space::Okhsl,
    Space::Okhsv,
    Space::Hsl,
    Space::Hsv,
];

#[test]
fn any_color_holds_space_and_components() {
    for space in ALL {
        let color = AnyColor::new(space, [7, 8, 9]);
        assert_eq!(color.space(), space);
        assert_eq!(color.components(), [7, 8, 9]);
    }
    assert_eq!(AnyColor::new(Space::Oklab, [1, 2, 3]), AnyColor::Oklab(oklab { l: 1, a: 2, b: 3 }));
    assert_eq!(AnyColor::Hsv(hsv { h: 1, s: 2, v: 3 }).components(), [1, 2, 3]);
    assert_eq!(AnyColor::Okhsl(okhsl { h: 1, s: 2, l: 3 }).space(), Space::Okhsl);
}

#[test]
fn any_colors_of_different_spaces_differ() {
    for a in ALL {
        for b in ALL {
            assert_eq!(AnyColor::new(a, [1, 2, 3]) == AnyColor::new(b, [1, 2, 3]), a == b);
        }
    }
    assert_eq!(AnyColor::new(Space::Hsl, [ZERO, 2, 3]), AnyColor::new(Space::Hsl, [MINUS_ZERO, 2, 3]));
    assert_ne!(AnyColor::new(Space::Hsl, [1, 2, 3]), AnyColor::new(Space::Hsl, [1, 2, 4]));
}

#[test]
fn any_color_goes_to_its_target_along_the_route() {
    // Each formula counts itself in the first component.
    let step = |c: [u32; 3], _formula: Formula| [c[0] + 1, c[1], c[2]];
    for from in ALL {
        for to in ALL {
            let out = AnyColor::new(from, [0, 8, 9]).to(to, step);
            assert_eq!(out.space(), to);
            assert_eq!(out.components(), [from.route(to).len() as u32, 8, 9]);
        }
    }
}

#[test]
fn any_color_is_tagged_with_its_target_whatever_the_formulas_do() {
    let scramble = |c: [u32; 3], _formula: Formula| [c[2], c[0], c[1]];
    let out = AnyColor::Hsl(hsl { h: 1, s: 2, l: 3 }).to(Space::Rgb, scramble);
    assert_eq!(out, AnyColor::Rgb(rgb { r: 2, g: 3, b: 1 }));
    let kept = AnyColor::Hsl(hsl { h: 1, s: 2, l: 3 }).to(Space::Hsl, scramble);
    assert_eq!(kept, AnyColor::Hsl(hsl { h: 1, s: 2, l: 3 }));
}
