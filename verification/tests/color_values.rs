use colors_transform::{
    adjust, hsl_to_rgb, hsv_to_rgb, normalize, rgb_to_hsl, rgb_to_hsv, AlphaColor, ChannelKind,
    Color, Hsl, Hsla, Rgb, Rgba, RgbColor, HUE_MAX, PERCENT_MAX, RATIO_MAX, RGB_UNIT_MAX,
};

#[test]
fn normalize_clamps_every_kind() {
    assert_eq!(normalize(ChannelKind::Percent, 150_000), PERCENT_MAX);
    assert_eq!(normalize(ChannelKind::Percent, -1), 0);
    assert_eq!(normalize(ChannelKind::Hue, 400_000), HUE_MAX);
    assert_eq!(normalize(ChannelKind::Hue, -5), 0);
    assert_eq!(normalize(ChannelKind::Ratio, 2_000), RATIO_MAX);
    assert_eq!(normalize(ChannelKind::ColorComponent, 300_000), RGB_UNIT_MAX);
    assert_eq!(normalize(ChannelKind::ColorComponent, 128_000), 128_000);
}

#[test]
fn normalize_is_idempotent_on_samples() {
    let samples: [i64; 5] = [-7, 0, 50_000, 100_000, 9_999_999];
    let kinds = [
        ChannelKind::Hue,
        ChannelKind::Percent,
        ChannelKind::Ratio,
        ChannelKind::ColorComponent,
    ];
    for &k in kinds.iter() {
        for &x in samples.iter() {
            let once = normalize(k, x);
            assert_eq!(normalize(k, once), once);
        }
    }
}

#[test]
fn adjust_saturates_beyond_machine_range() {
    assert_eq!(adjust(ChannelKind::Hue, 360_000, i64::MAX), HUE_MAX);
    assert_eq!(adjust(ChannelKind::Hue, 0, i64::MIN), 0);
}

#[test]
fn round_trip_black_white_red() {
    for rgb in [(0, 0, 0), (255_000, 255_000, 255_000), (255_000, 0, 0)] {
        let hsl = rgb_to_hsl(rgb);
        assert_eq!(hsl_to_rgb(hsl), rgb);
    }
}

#[test]
fn round_trip_mixed_color_within_tolerance() {
    // a hundredth of a 0..=255 unit is 10 thousandths
    let rgb = (128_000, 64_000, 192_000);
    let back = hsl_to_rgb(rgb_to_hsl(rgb));
    assert!((back.0 - rgb.0).abs() <= 10);
    assert!((back.1 - rgb.1).abs() <= 10);
    assert!((back.2 - rgb.2).abs() <= 10);
}

#[test]
fn round_trip_hsv_primaries() {
    for rgb in [(0, 0, 0), (255_000, 255_000, 255_000), (0, 255_000, 0)] {
        let hsv = rgb_to_hsv(rgb);
        assert_eq!(hsv_to_rgb(hsv), rgb);
    }
}

#[test]
fn achromatic_gray_has_zero_hue_and_saturation() {
    let (h, s, l) = rgb_to_hsl((128_000, 128_000, 128_000));
    assert_eq!(h, 0);
    assert_eq!(s, 0);
    assert_eq!(l, 50_196);
}

#[test]
fn red_converts_to_known_hsl_and_hsv() {
    assert_eq!(rgb_to_hsl((255_000, 0, 0)), (0, 100_000, 50_000));
    assert_eq!(rgb_to_hsv((255_000, 0, 0)), (0, 100_000, 100_000));
    assert_eq!(rgb_to_hsl((0, 255_000, 0)).0, 120_000);
    assert_eq!(rgb_to_hsl((0, 0, 255_000)).0, 240_000);
}

#[test]
fn css_string_of_plain_hsl() {
    let hsl = Hsl::from_tuple(&(301_000, 27_000, 91_000));
    assert_eq!(hsl.to_css_string(), "hsl(301,27%,91%)");
}

#[test]
fn css_string_of_hsl_with_alpha() {
    let hsl = Hsl::from_with_alpha(301_000, 27_000, 91_000, 500);
    assert_eq!(hsl.to_css_string(), "hsla(301,27%,91%,0.5)");
}

#[test]
fn css_string_rounds_to_whole_units() {
    let hsl = Hsl::from(301_499, 27_500, 90_999);
    assert_eq!(hsl.to_css_string(), "hsl(301,28%,91%)");
}

#[test]
fn css_string_of_rgb_and_rgba() {
    assert_eq!(Rgb::from(255_000, 13_000, 177_000).to_css_string(), "rgb(255,13,177)");
    assert_eq!(Rgba::from(10_000, 20_000, 30_000, 250).to_css_string(), "rgba(10,20,30,0.25)");
}

#[test]
fn css_alpha_forms() {
    assert_eq!(Hsla::from(0, 0, 0, 1000).to_css_string(), "hsla(0,0%,0%,1)");
    assert_eq!(Hsla::from(0, 0, 0, 0).to_css_string(), "hsla(0,0%,0%,0)");
    assert_eq!(Hsla::from(0, 0, 0, 125).to_css_string(), "hsla(0,0%,0%,0.125)");
    assert_eq!(Hsla::from(0, 0, 0, 120).to_css_string(), "hsla(0,0%,0%,0.12)");
}

#[test]
fn hsl_construction_clamps() {
    let c = Hsl::from(400_000, -5, 120_000);
    assert_eq!(c.as_tuple(), (360_000, 0, 100_000));
    let d = Hsl::default();
    assert_eq!(d.as_tuple(), (0, 0, 0));
    assert_eq!(d.get_alpha(), 1000);
}

#[test]
fn hsl_setters_renormalize() {
    let mut c = Hsl::from(10_000, 20_000, 30_000);
    c.set_hue(999_999);
    assert_eq!(c.get_hue(), 360_000);
    c.set_saturation(-3);
    assert_eq!(c.get_saturation(), 0);
    c.set_lightness(45_000);
    assert_eq!(c.get_lightness(), 45_000);
    c.set_alpha(700);
    assert_eq!(c.get_alpha(), 700);
    assert_eq!(c.as_tuple_with_alpha(), (360_000, 0, 45_000, 700));
}

#[test]
fn adjust_hue_clamps_at_360_not_wraps() {
    let c = Hsl::from(300_000, 50_000, 50_000);
    let moved = c.adjust_hue(120_000);
    assert_eq!(moved.get_hue(), 360_000);
    let below = c.adjust_hue(-400_000);
    assert_eq!(below.get_hue(), 0);
}

#[test]
fn saturate_and_lighten_clamp() {
    let c = Hsl::from(10_000, 90_000, 95_000);
    assert_eq!(c.saturate(20_000).get_saturation(), 100_000);
    assert_eq!(c.lighten(20_000).get_lightness(), 100_000);
    assert_eq!(c.saturate(-95_000).get_saturation(), 0);
}

#[test]
fn hsl_conversions_carry_alpha() {
    let c = Hsl::from_with_alpha(0, 100_000, 50_000, 400);
    let rgba = c.to_rgba();
    assert_eq!(rgba.get_alpha(), 400);
    let hsla = c.to_hsla();
    assert_eq!(hsla.get_alpha(), 400);
    let rgb = c.to_rgb();
    assert_eq!((rgb.get_red(), rgb.get_green(), rgb.get_blue()), (255_000, 0, 0));
}

#[test]
fn rgb_trait_capabilities() {
    let c: Rgb = Color::new();
    assert_eq!(c.as_tuple(), (0, 0, 0));
    let red = <Rgb as Color>::from_tuple((255_000, 0, 0));
    assert_eq!(red.get_hue(), 0);
    assert_eq!(red.get_saturation(), 100_000);
    assert_eq!(red.get_lightness(), 50_000);
    let softer = red.set_lightness(75_000);
    let t = softer.as_tuple();
    assert_eq!(t.0, 255_000);
    assert!((t.1 - 127_500).abs() <= 10 && (t.2 - 127_500).abs() <= 10);
    let greener = red.adjust_color(RgbColor::Green, 300_000);
    assert_eq!(greener.as_tuple(), (255_000, 255_000, 0));
}

#[test]
fn rgb_trait_conversions() {
    let c = Rgb::from(255_000, 0, 0);
    assert_eq!(c.to_hsl().as_tuple(), (0, 100_000, 50_000));
    assert_eq!(c.to_rgba().get_alpha(), 1000);
    assert_eq!(c.to_hsla().get_alpha(), 1000);
}

#[test]
fn hsla_trait_capabilities() {
    let c = Hsla::from(120_000, 100_000, 50_000, 800);
    assert_eq!((c.get_red(), c.get_green(), c.get_blue()), (0, 255_000, 0));
    assert_eq!(c.to_rgba().as_tuple(), (0, 255_000, 0, 800));
    assert_eq!(c.set_hue(240_000).get_hue(), 240_000);
    assert_eq!(c.adjust_hue(999_000).get_hue(), 360_000);
    assert!(!c.to_hsl().to_css_string().starts_with("hsla"));
}

#[test]
fn alpha_color_mutators() {
    let c = Rgba::from(10_000, 20_000, 30_000, 500);
    assert_eq!(c.get_alpha(), 500);
    assert_eq!(c.set_alpha(2_000).get_alpha(), 1000);
    assert_eq!(c.opacify(300).get_alpha(), 800);
    assert_eq!(c.opacify(-900).get_alpha(), 0);
    let h = Hsla::from(0, 0, 0, 500);
    assert_eq!(h.set_alpha(-1).get_alpha(), 0);
    assert_eq!(h.opacify(600).get_alpha(), 1000);
}

#[test]
fn hsl_channel_getters_via_rgb() {
    let c = Hsl::from(0, 100_000, 50_000);
    assert_eq!((c.get_red(), c.get_green(), c.get_blue()), (255_000, 0, 0));
    let dimmed = c.set_red(128_000);
    assert_eq!(dimmed.get_lightness() > 0, true);
}
