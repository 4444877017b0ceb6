use colors_transform::{hsl_hsv_from_str, strings_from_name, Hsl};

#[test]
fn family_strings_hsl() {
    let (start, start_a, err_name) = strings_from_name("hsl").unwrap();
    assert_eq!(start, "hsl(");
    assert_eq!(start_a, "hsla(");
    assert_eq!(err_name, "hsl or hsla");
}

#[test]
fn family_strings_hsv() {
    let (start, start_a, err_name) = strings_from_name("hsv").unwrap();
    assert_eq!(start, "hsv(");
    assert_eq!(start_a, "hsva(");
    assert_eq!(err_name, "hsv or hsva");
}

#[test]
fn family_strings_unknown() {
    assert!(strings_from_name("rgb").is_none());
    assert!(strings_from_name("").is_none());
    assert!(strings_from_name("hslx").is_none());
}

#[test]
fn parse_plain_hsl() {
    let (t, alpha) = hsl_hsv_from_str("hsl(315,99,12)", "hsl").unwrap();
    assert_eq!(t, (315_000, 99_000, 12_000));
    assert!(alpha.is_none());
}

#[test]
fn parse_hsla_with_alpha() {
    let (t, alpha) = hsl_hsv_from_str("hsla(315,99,12,0.5)", "hsl").unwrap();
    assert_eq!(t, (315_000, 99_000, 12_000));
    assert_eq!(alpha, Some(500));
}

#[test]
fn parse_hsv_family() {
    let (t, alpha) = hsl_hsv_from_str("hsv(120,50,75)", "hsv").unwrap();
    assert_eq!(t, (120_000, 50_000, 75_000));
    assert!(alpha.is_none());
}

#[test]
fn parse_is_whitespace_and_case_insensitive() {
    let (t, alpha) = hsl_hsv_from_str("  HSL( 315 , 99 , 12 )  ", "hsl").unwrap();
    assert_eq!(t, (315_000, 99_000, 12_000));
    assert!(alpha.is_none());
}

#[test]
fn parse_fractions() {
    let (t, _) = hsl_hsv_from_str("hsl(315.5,99.25,12.125)", "hsl").unwrap();
    assert_eq!(t, (315_500, 99_250, 12_125));
}

#[test]
fn parse_fraction_truncated_after_third_digit() {
    let (t, _) = hsl_hsv_from_str("hsl(0.12345,0,0)", "hsl").unwrap();
    assert_eq!(t.0, 123);
}

#[test]
fn parse_leading_point_and_sign() {
    let (t, _) = hsl_hsv_from_str("hsl(.5,+10,5.)", "hsl").unwrap();
    assert_eq!(t, (500, 10_000, 5_000));
}

#[test]
fn parse_wrong_arity_fails() {
    let e = hsl_hsv_from_str("hsl(315,99)", "hsl").unwrap_err();
    assert_eq!(e.input, "hsl(315,99)");
    assert_eq!(e.expected, "hsl or hsla");
    assert!(hsl_hsv_from_str("hsl(1,2,3,4)", "hsl").is_err());
    assert!(hsl_hsv_from_str("hsla(1,2,3)", "hsl").is_err());
}

#[test]
fn parse_out_of_range_hue_fails() {
    assert!(hsl_hsv_from_str("hsl(400,99,12)", "hsl").is_err());
    assert!(hsl_hsv_from_str("hsl(10,101,12)", "hsl").is_err());
    assert!(hsl_hsv_from_str("hsla(10,20,30,1.5)", "hsl").is_err());
    assert!(hsl_hsv_from_str("hsl(-1,0,0)", "hsl").is_err());
}

#[test]
fn parse_boundary_values_pass() {
    let (t, alpha) = hsl_hsv_from_str("hsla(360,100,100,1)", "hsl").unwrap();
    assert_eq!(t, (360_000, 100_000, 100_000));
    assert_eq!(alpha, Some(1000));
    let (t0, _) = hsl_hsv_from_str("hsl(0,0,0)", "hsl").unwrap();
    assert_eq!(t0, (0, 0, 0));
}

#[test]
fn parse_wrong_family_text_fails() {
    let e = hsl_hsv_from_str("rgb(10,20,30)", "hsl").unwrap_err();
    assert_eq!(e.input, "rgb(10,20,30)");
    assert_eq!(e.expected, "hsl or hsla");
}

#[test]
fn parse_unknown_family_name_fails_as_undefined() {
    let e = hsl_hsv_from_str("hsl(1,2,3)", "rgb").unwrap_err();
    assert_eq!(e.expected, "undefined");
}

#[test]
fn parse_non_numeric_field_fails() {
    assert!(hsl_hsv_from_str("hsl(a,2,3)", "hsl").is_err());
    assert!(hsl_hsv_from_str("hsl(1,2,)", "hsl").is_err());
    assert!(hsl_hsv_from_str("hsl(nan,2,3)", "hsl").is_err());
    assert!(hsl_hsv_from_str("hsl(1e2,2,3)", "hsl").is_err());
    assert!(hsl_hsv_from_str("hsl(1.2.3,2,3)", "hsl").is_err());
}

#[test]
fn parse_malformed_shape_fails() {
    assert!(hsl_hsv_from_str("hsl(1,2,3", "hsl").is_err());
    assert!(hsl_hsv_from_str("hsl 1,2,3)", "hsl").is_err());
    assert!(hsl_hsv_from_str("", "hsl").is_err());
    assert!(hsl_hsv_from_str("hsl()", "hsl").is_err());
}

#[test]
fn parse_huge_number_fails_range_check() {
    assert!(hsl_hsv_from_str("hsl(99999999999999999999,0,0)", "hsl").is_err());
}

#[test]
fn hsl_from_str_builds_the_value() {
    let c = Hsl::from_str("hsl(315,99,12)").unwrap();
    assert_eq!(c.get_hue(), 315_000);
    assert_eq!(c.get_saturation(), 99_000);
    assert_eq!(c.get_lightness(), 12_000);
    assert_eq!(c.get_alpha(), 1000);
    let ca = Hsl::from_str("hsla(315,99,12,0.5)").unwrap();
    assert_eq!(ca.get_alpha(), 500);
}

#[test]
fn hsl_parses_via_from_str_trait() {
    let c: colors_transform::Hsl = "hsl(315,99,12)".parse().unwrap();
    assert_eq!(c.get_saturation(), 99_000);
    assert!("hsl(400,99,12)".parse::<colors_transform::Hsl>().is_err());
}
