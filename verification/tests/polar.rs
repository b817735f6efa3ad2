use tinycolors::polar::{
    hsl_plan, hsv_plan, hue_ramp, hue_sector, is_gray, max3, min3, srgb_from_sextant, srgb_mix,
    HslSaturation, Mix, Ramp, Sector, ONE_SIXTH, TWO_THIRDS,
};
use tinycolors::{hsl, srgb};

fn color(r: f32, g: f32, b: f32) -> srgb {
    srgb { r: r.to_bits(), g: g.to_bits(), b: b.to_bits() }
}

fn polar(h: f32, s: f32, l: f32) -> hsl {
    hsl { h: h.to_bits(), s: s.to_bits(), l: l.to_bits() }
}

fn levels(color: srgb) -> (u32, u32, u32) {
    (color.r, color.g, color.b)
}

fn channel_samples() -> Vec<f32> {
    vec![
        0.0,
        -0.0,
        1.0e-45,
        0.25,
        0.5,
        0.500_000_06,
        0.75,
        1.0,
        2.0,
        -0.5,
        -1.0,
        f32::INFINITY,
        f32::NEG_INFINITY,
        f32::NAN,
        -f32::NAN,
    ]
}

/// The hue formula as comparisons of the numbers choose it.
fn sector_by_comparison(r: f32, g: f32, b: f32) -> Sector {
    let max = r.max(g.max(b));
    let min = r.min(g.min(b));
    if max == min {
        Sector::Gray
    } else if max == r {
        Sector::Red { wrapped: g < b }
    } else if max == g {
        Sector::Green
    } else if max == b {
        Sector::Blue
    } else {
        Sector::Undefined
    }
}

#[test]
fn thresholds_are_the_quotients_in_single_precision() {
    assert_eq!(ONE_SIXTH, (1.0f32 / 6.0).to_bits());
    assert_eq!(TWO_THIRDS, (2.0f32 / 3.0).to_bits());
}

#[test]
fn max3_and_min3_agree_with_the_format() {
    for r in channel_samples() {
        for g in channel_samples() {
            for b in channel_samples() {
                let hi = f32::from_bits(max3(r.to_bits(), g.to_bits(), b.to_bits()));
                let lo = f32::from_bits(min3(r.to_bits(), g.to_bits(), b.to_bits()));
                let max = r.max(g.max(b));
                let min = r.min(g.min(b));
                if max.is_nan() {
                    assert!(hi.is_nan() && lo.is_nan() && min.is_nan());
                } else {
                    assert_eq!(hi, max, "{r} {g} {b}");
                    assert_eq!(lo, min, "{r} {g} {b}");
                }
            }
        }
    }
    assert_eq!(max3(1, 3, 2), 3);
    assert_eq!(min3(3, 1, 2), 1);
}

#[test]
fn hue_sector_agrees_with_the_comparisons() {
    for r in channel_samples() {
        for g in channel_samples() {
            for b in channel_samples() {
                assert_eq!(
                    hue_sector(color(r, g, b)),
                    sector_by_comparison(r, g, b),
                    "{r} {g} {b}"
                );
                let max = r.max(g.max(b));
                let min = r.min(g.min(b));
                assert_eq!(is_gray(color(r, g, b)), max == min, "{r} {g} {b}");
            }
        }
    }
}

#[test]
fn hue_sector_of_the_primaries() {
    assert_eq!(hue_sector(srgb::red()), Sector::Red { wrapped: false });
    assert_eq!(hue_sector(srgb::green()), Sector::Green);
    assert_eq!(hue_sector(srgb::blue()), Sector::Blue);
    // Yellow, aqua, purple: the first of the largest channels decides.
    assert_eq!(hue_sector(srgb::yellow()), Sector::Red { wrapped: false });
    assert_eq!(hue_sector(srgb::aqua()), Sector::Green);
    assert_eq!(hue_sector(srgb::purple()), Sector::Red { wrapped: true });
    assert_eq!(hue_sector(srgb::white()), Sector::Gray);
    assert_eq!(hue_sector(srgb::black()), Sector::Gray);
}

#[test]
fn a_gray_has_no_hue_and_no_saturation() {
    for x in channel_samples() {
        if x.is_nan() {
            continue;
        }
        for l in channel_samples() {
            let plan = hsl_plan(color(x, x, x), l.to_bits());
            assert_eq!(plan.hue, Sector::Gray, "{x}");
            assert_eq!(plan.saturation, HslSaturation::Zero, "{x}");
        }
        assert_eq!(hsv_plan(color(x, x, x)).hue, Sector::Gray, "{x}");
        assert!(is_gray(color(x, x, x)));
    }
    // The two zeros are one gray.
    let plan = hsl_plan(color(-0.0, 0.0, -0.0), 0);
    assert_eq!(plan.hue, Sector::Gray);
    assert_eq!(plan.saturation, HslSaturation::Zero);
}

#[test]
fn hue_sector_with_nans() {
    let nan = f32::NAN;
    assert_eq!(hue_sector(color(nan, nan, nan)), Sector::Undefined);
    assert!(!is_gray(color(nan, nan, nan)));
    assert_eq!(hue_sector(color(nan, 0.5, nan)), Sector::Gray);
    assert_eq!(hue_sector(color(0.5, nan, nan)), Sector::Gray);
    assert_eq!(hue_sector(color(nan, 1.0, 0.5)), Sector::Green);
    assert_eq!(hue_sector(color(nan, 0.5, 1.0)), Sector::Blue);
    assert_eq!(hue_sector(color(1.0, nan, 0.5)), Sector::Red { wrapped: false });
}

#[test]
fn hsl_plan_agrees_with_the_comparisons() {
    for r in channel_samples() {
        for g in channel_samples() {
            for b in channel_samples() {
                let max = r.max(g.max(b));
                let min = r.min(g.min(b));
                let l = (max + min) / 2.0;
                let expected = if max == min {
                    HslSaturation::Zero
                } else if l > 0.5 {
                    HslSaturation::Light
                } else {
                    HslSaturation::Dark
                };
                let plan = hsl_plan(color(r, g, b), l.to_bits());
                assert_eq!(plan.saturation, expected, "{r} {g} {b}");
                assert_eq!(plan.hue, sector_by_comparison(r, g, b), "{r} {g} {b}");
            }
        }
    }
}

#[test]
fn hsl_plan_at_one_half() {
    let half = 0.5f32.to_bits();
    // Lightness one half is not above one half.
    assert_eq!(hsl_plan(srgb::red(), half).saturation, HslSaturation::Dark);
    assert_eq!(hsl_plan(srgb::red(), half + 1).saturation, HslSaturation::Light);
    assert_eq!(hsl_plan(srgb::red(), f32::NAN.to_bits()).saturation, HslSaturation::Dark);
}

#[test]
fn hsv_plan_agrees_with_the_comparisons() {
    for r in channel_samples() {
        for g in channel_samples() {
            for b in channel_samples() {
                let max = r.max(g.max(b));
                let plan = hsv_plan(color(r, g, b));
                assert_eq!(plan.black, max == 0.0, "{r} {g} {b}");
                assert_eq!(plan.hue, sector_by_comparison(r, g, b), "{r} {g} {b}");
            }
        }
    }
    assert!(hsv_plan(srgb::black()).black);
    assert!(hsv_plan(color(-0.0, -0.0, -0.0)).black);
    assert!(hsv_plan(color(-1.0, 0.0, -0.5)).black);
    assert!(!hsv_plan(color(0.0, 1.0e-45, 0.0)).black);
    assert!(!hsv_plan(srgb::white()).black);
}

#[test]
fn srgb_mix_agrees_with_the_comparisons() {
    for s in channel_samples() {
        for l in channel_samples() {
            let mix = srgb_mix(polar(0.25, s, l));
            if s == 0.0 {
                match mix {
                    Mix::Gray(gray) => assert_eq!(levels(gray), (l.to_bits(), l.to_bits(), l.to_bits())),
                    other => panic!("{s} {l}: {other:?}"),
                }
            } else if l < 0.5 {
                assert_eq!(mix, Mix::Dark, "{s} {l}");
            } else {
                assert_eq!(mix, Mix::Light, "{s} {l}");
            }
        }
    }
    assert_eq!(srgb_mix(polar(0.9, 0.0, 0.3)), Mix::Gray(color(0.3, 0.3, 0.3)));
    assert_eq!(srgb_mix(polar(0.9, -0.0, 0.3)), Mix::Gray(color(0.3, 0.3, 0.3)));
    assert_eq!(srgb_mix(polar(0.0, 1.0, 0.5)), Mix::Light);
    assert_eq!(srgb_mix(polar(0.0, 1.0, 0.25)), Mix::Dark);
    assert_eq!(srgb_mix(polar(0.0, f32::NAN, 0.25)), Mix::Dark);
    assert_eq!(srgb_mix(polar(0.0, 1.0, f32::NAN)), Mix::Light);
}

#[test]
fn hue_ramp_agrees_with_the_comparisons() {
    let mut offsets: Vec<u32> = channel_samples().iter().map(|t| t.to_bits()).collect();
    for edge in [ONE_SIXTH, 0.5f32.to_bits(), TWO_THIRDS] {
        for near in edge - 2..=edge + 2 {
            offsets.push(near);
        }
    }
    for bits in offsets {
        let t = f32::from_bits(bits);
        let expected = if t < 1.0 / 6.0 {
            Ramp::Rising
        } else if t < 0.5 {
            Ramp::High
        } else if t < 2.0 / 3.0 {
            Ramp::Falling
        } else {
            Ramp::Low
        };
        assert_eq!(hue_ramp(bits), expected, "{t}");
    }
}

#[test]
fn hue_ramp_at_its_edges() {
    assert_eq!(hue_ramp(0), Ramp::Rising);
    assert_eq!(hue_ramp(ONE_SIXTH - 1), Ramp::Rising);
    assert_eq!(hue_ramp(ONE_SIXTH), Ramp::High);
    assert_eq!(hue_ramp(0.5f32.to_bits() - 1), Ramp::High);
    assert_eq!(hue_ramp(0.5f32.to_bits()), Ramp::Falling);
    assert_eq!(hue_ramp(TWO_THIRDS - 1), Ramp::Falling);
    assert_eq!(hue_ramp(TWO_THIRDS), Ramp::Low);
    assert_eq!(hue_ramp(1.0f32.to_bits()), Ramp::Low);
    assert_eq!(hue_ramp(f32::NAN.to_bits()), Ramp::Low);
    assert_eq!(hue_ramp((-0.25f32).to_bits()), Ramp::Rising);
}

#[test]
fn sextants_arrange_the_levels() {
    let (v, p, q, t) = (10, 20, 30, 40);
    assert_eq!(levels(srgb_from_sextant(0, v, p, q, t)), (v, t, p));
    assert_eq!(levels(srgb_from_sextant(1, v, p, q, t)), (q, v, p));
    assert_eq!(levels(srgb_from_sextant(2, v, p, q, t)), (p, v, t));
    assert_eq!(levels(srgb_from_sextant(3, v, p, q, t)), (p, q, v));
    assert_eq!(levels(srgb_from_sextant(4, v, p, q, t)), (t, p, v));
    assert_eq!(levels(srgb_from_sextant(5, v, p, q, t)), (v, p, q));
}

#[test]
fn sextants_go_around_the_circle() {
    let (v, p, q, t) = (10, 20, 30, 40);
    for i in 0..60 {
        assert_eq!(
            levels(srgb_from_sextant(i + 6, v, p, q, t)),
            levels(srgb_from_sextant(i, v, p, q, t)),
            "{i}"
        );
    }
    assert_eq!(levels(srgb_from_sextant(i32::MAX, v, p, q, t)), (q, v, p));
}

#[test]
fn negative_sextants_are_black_but_for_multiples_of_six() {
    let (v, p, q, t) = (10, 20, 30, 40);
    for i in -40..0 {
        let expected = if i % 6 == 0 { (v, t, p) } else { (0, 0, 0) };
        assert_eq!(levels(srgb_from_sextant(i, v, p, q, t)), expected, "{i}");
    }
    assert_eq!(levels(srgb_from_sextant(i32::MIN, v, p, q, t)), (0, 0, 0));
    assert_eq!(levels(srgb_from_sextant(-6, v, p, q, t)), (v, t, p));
}

#[test]
fn sextants_agree_with_the_remainder() {
    let (v, p, q, t) = (1, 2, 3, 4);
    for i in -100..100 {
        let expected = match i % 6 {
            0 => (v, t, p),
            1 => (q, v, p),
            2 => (p, v, t),
            3 => (p, q, v),
            4 => (t, p, v),
            5 => (v, p, q),
            _ => (0, 0, 0),
        };
        assert_eq!(levels(srgb_from_sextant(i, v, p, q, t)), expected, "{i}");
    }
}
