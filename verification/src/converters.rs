//! Pure color-space conversion between RGB and HSL/HSV, on channel
//! values in thousandths of a unit.
//!
//! The formulas are the standard colorimetric ones, carried out in
//! fixed-point arithmetic with divisions rounded to the nearest
//! thousandth, and every output channel clamped into its valid range.
//! Achromatic inputs (all three RGB channels equal) are guarded
//! explicitly: they yield hue 0 and saturation 0, never a division by
//! zero.

use vstd::prelude::*;

use crate::normalize::{spec_clamp, normalize, ChannelKind, HUE_MAX, PERCENT_MAX, RGB_UNIT_MAX};
use crate::ColorTuple;

verus! {

/// Division of nonnegative `a` by positive `b`, rounded to the nearest
/// integer (half away from zero).
pub open spec fn spec_div_round(a: int, b: int) -> int {
    (2 * a + b) / (2 * b)
}

/// `spec_div_round` extended to a possibly negative dividend, rounding
/// half away from zero.
pub open spec fn spec_div_round_signed(a: int, b: int) -> int {
    if a >= 0 {
        spec_div_round(a, b)
    } else {
        -spec_div_round(-a, b)
    }
}

#[verifier::loop_isolation(false)]
fn div_round(a: i64, b: i64) -> (q: i64)
    requires
        0 <= a <= 0x0100_0000_0000_0000,
        0 < b <= 0x0100_0000_0000_0000,
    ensures
        q == spec_div_round(a as int, b as int),
{
    (2 * a + b) / (2 * b)
}

fn div_round_signed(a: i64, b: i64) -> (q: i64)
    requires
        -0x0100_0000_0000_0000 <= a <= 0x0100_0000_0000_0000,
        0 < b <= 0x0100_0000_0000_0000,
    ensures
        q == spec_div_round_signed(a as int, b as int),
{
    if a >= 0 {
        div_round(a, b)
    } else {
        -div_round(-a, b)
    }
}

/// Greatest of three values.
pub open spec fn spec_max3(a: int, b: int, c: int) -> int {
    if a >= b && a >= c {
        a
    } else if b >= c {
        b
    } else {
        c
    }
}

/// Least of three values.
pub open spec fn spec_min3(a: int, b: int, c: int) -> int {
    if a <= b && a <= c {
        a
    } else if b <= c {
        b
    } else {
        c
    }
}

/// Hue, in thousandths of a degree, of an RGB triple with the given
/// maximum and chroma; 0 when the chroma is 0. The standard six-sector
/// formula: the sector is picked by which channel is the maximum
/// (red, then green, then blue on ties).
pub open spec fn spec_hue_of(r: int, g: int, b: int) -> int {
    let mx = spec_max3(r, g, b);
    let c = mx - spec_min3(r, g, b);
    if c == 0 {
        0
    } else if mx == r {
        let t = spec_div_round_signed((g - b) * 60_000, c);
        if t >= 0 {
            t
        } else {
            t + 360_000
        }
    } else if mx == g {
        120_000 + spec_div_round_signed((b - r) * 60_000, c)
    } else {
        240_000 + spec_div_round_signed((r - g) * 60_000, c)
    }
}

/// Lightness, in thousandths of a percent: `(max + min) / 2`, rescaled
/// from the 0..=255 component scale to percent.
pub open spec fn spec_lightness_of(r: int, g: int, b: int) -> int {
    spec_div_round((spec_max3(r, g, b) + spec_min3(r, g, b)) * 10, 51)
}

/// HSL saturation, in thousandths of a percent: `chroma / (1 - |2l - 1|)`,
/// written over `max + min`; 0 when the chroma is 0.
pub open spec fn spec_hsl_saturation_of(r: int, g: int, b: int) -> int {
    let mx = spec_max3(r, g, b);
    let mn = spec_min3(r, g, b);
    let c = mx - mn;
    if c == 0 {
        0
    } else if mx + mn <= 255_000 {
        spec_div_round(c * 100_000, mx + mn)
    } else {
        spec_div_round(c * 100_000, 510_000 - (mx + mn))
    }
}

/// The full RGB to HSL conversion, each output clamped into its range.
pub open spec fn spec_rgb_to_hsl(r: int, g: int, b: int) -> (int, int, int) {
    (
        spec_clamp(spec_hue_of(r, g, b), 0, HUE_MAX as int),
        spec_clamp(spec_hsl_saturation_of(r, g, b), 0, PERCENT_MAX as int),
        spec_clamp(spec_lightness_of(r, g, b), 0, PERCENT_MAX as int),
    )
}

/// Converts an RGB triple (thousandths of 0..=255 components) to an HSL
/// triple (thousandths of a degree and of percents). Outputs are
/// normalized; an achromatic input yields hue 0 and saturation 0.
pub fn rgb_to_hsl(rgb: ColorTuple) -> (hsl: ColorTuple)
    requires
        0 <= rgb.0 <= RGB_UNIT_MAX,
        0 <= rgb.1 <= RGB_UNIT_MAX,
        0 <= rgb.2 <= RGB_UNIT_MAX,
    ensures
        (hsl.0 as int, hsl.1 as int, hsl.2 as int) == spec_rgb_to_hsl(
            rgb.0 as int,
            rgb.1 as int,
            rgb.2 as int,
        ),
        0 <= hsl.0 <= HUE_MAX && 0 <= hsl.1 <= PERCENT_MAX && 0 <= hsl.2 <= PERCENT_MAX,
        rgb.0 == rgb.1 && rgb.1 == rgb.2 ==> hsl.0 == 0 && hsl.1 == 0,
{
    let (r, g, b) = rgb;
    let mx = max3(r, g, b);
    let mn = min3(r, g, b);
    let c = mx - mn;
    let h: i64 = if c == 0 {
        0
    } else if mx == r {
        let t = div_round_signed((g - b) * 60_000, c);
        if t >= 0 {
            t
        } else {
            t + 360_000
        }
    } else if mx == g {
        120_000 + div_round_signed((b - r) * 60_000, c)
    } else {
        240_000 + div_round_signed((r - g) * 60_000, c)
    };
    let s: i64 = if c == 0 {
        0
    } else if mx + mn <= 255_000 {
        div_round(c * 100_000, mx + mn)
    } else {
        div_round(c * 100_000, 510_000 - (mx + mn))
    };
    let l: i64 = div_round((mx + mn) * 10, 51);
    (
        normalize(ChannelKind::Hue, h),
        normalize(ChannelKind::Percent, s),
        normalize(ChannelKind::Percent, l),
    )
}

/// HSV value, in thousandths of a percent: the maximum channel rescaled
/// to percent.
pub open spec fn spec_value_of(r: int, g: int, b: int) -> int {
    spec_div_round(spec_max3(r, g, b) * 20, 51)
}

/// HSV saturation, in thousandths of a percent: `chroma / max`; 0 for
/// black and for achromatic inputs.
pub open spec fn spec_hsv_saturation_of(r: int, g: int, b: int) -> int {
    let mx = spec_max3(r, g, b);
    let c = mx - spec_min3(r, g, b);
    if c == 0 {
        0
    } else {
        spec_div_round(c * 100_000, mx)
    }
}

/// The full RGB to HSV conversion, each output clamped into its range.
pub open spec fn spec_rgb_to_hsv(r: int, g: int, b: int) -> (int, int, int) {
    (
        spec_clamp(spec_hue_of(r, g, b), 0, HUE_MAX as int),
        spec_clamp(spec_hsv_saturation_of(r, g, b), 0, PERCENT_MAX as int),
        spec_clamp(spec_value_of(r, g, b), 0, PERCENT_MAX as int),
    )
}

/// Converts an RGB triple to an HSV triple (hue, saturation, value), the
/// analogue of [`rgb_to_hsl`].
pub fn rgb_to_hsv(rgb: ColorTuple) -> (hsv: ColorTuple)
    requires
        0 <= rgb.0 <= RGB_UNIT_MAX,
        0 <= rgb.1 <= RGB_UNIT_MAX,
        0 <= rgb.2 <= RGB_UNIT_MAX,
    ensures
        (hsv.0 as int, hsv.1 as int, hsv.2 as int) == spec_rgb_to_hsv(
            rgb.0 as int,
            rgb.1 as int,
            rgb.2 as int,
        ),
        0 <= hsv.0 <= HUE_MAX && 0 <= hsv.1 <= PERCENT_MAX && 0 <= hsv.2 <= PERCENT_MAX,
        rgb.0 == rgb.1 && rgb.1 == rgb.2 ==> hsv.0 == 0 && hsv.1 == 0,
{
    let (r, g, b) = rgb;
    let mx = max3(r, g, b);
    let mn = min3(r, g, b);
    let c = mx - mn;
    let h: i64 = if c == 0 {
        0
    } else if mx == r {
        let t = div_round_signed((g - b) * 60_000, c);
        if t >= 0 {
            t
        } else {
            t + 360_000
        }
    } else if mx == g {
        120_000 + div_round_signed((b - r) * 60_000, c)
    } else {
        240_000 + div_round_signed((r - g) * 60_000, c)
    };
    let s: i64 = if c == 0 {
        0
    } else {
        div_round(c * 100_000, mx)
    };
    let v: i64 = div_round(mx * 20, 51);
    (
        normalize(ChannelKind::Hue, h),
        normalize(ChannelKind::Percent, s),
        normalize(ChannelKind::Percent, v),
    )
}

/// The chroma scaled by `10^10`: `(1 - |2l - 1|) * s` for HSL inputs.
pub open spec fn spec_hsl_chroma10(s: int, l: int) -> int {
    (100_000 - spec_abs(2 * l - 100_000)) * s
}

/// Absolute value.
pub open spec fn spec_abs(x: int) -> int {
    if x >= 0 {
        x
    } else {
        -x
    }
}

/// The hue's distance factor scaled by 60000:
/// `1 - |(h / 60 mod 2) - 1|` over thousandths of degrees.
pub open spec fn spec_hue_fade(h: int) -> int {
    60_000 - spec_abs((h % 120_000) - 60_000)
}

/// One RGB channel of the inverse conversions, from a chroma-like and an
/// offset-like term scaled by `10^10`, brought to thousandths of a
/// component and clamped.
pub open spec fn spec_channel255(c10: int, m10: int) -> int {
    spec_clamp(spec_div_round((c10 + m10) * 255, 10_000_000), 0, RGB_UNIT_MAX as int)
}

/// The sector of a hue: `h / 60`, taken modulo 6 so that 360 degrees
/// falls back to the red sector.
pub open spec fn spec_sector(h: int) -> int {
    (h / 60_000) % 6
}

/// The full HSL to RGB conversion: the standard six-sector inverse, all
/// in thousandths.
pub open spec fn spec_hsl_to_rgb(h: int, s: int, l: int) -> (int, int, int) {
    let c10 = spec_hsl_chroma10(s, l);
    let x10 = spec_div_round(c10 * spec_hue_fade(h), 60_000);
    let m10 = l * 100_000 - c10 / 2;
    let k = spec_sector(h);
    if k == 0 {
        (spec_channel255(c10, m10), spec_channel255(x10, m10), spec_channel255(0, m10))
    } else if k == 1 {
        (spec_channel255(x10, m10), spec_channel255(c10, m10), spec_channel255(0, m10))
    } else if k == 2 {
        (spec_channel255(0, m10), spec_channel255(c10, m10), spec_channel255(x10, m10))
    } else if k == 3 {
        (spec_channel255(0, m10), spec_channel255(x10, m10), spec_channel255(c10, m10))
    } else if k == 4 {
        (spec_channel255(x10, m10), spec_channel255(0, m10), spec_channel255(c10, m10))
    } else {
        (spec_channel255(c10, m10), spec_channel255(0, m10), spec_channel255(x10, m10))
    }
}

fn channel255(c10: i64, m10: i64) -> (ch: i64)
    requires
        0 <= c10 <= 10_000_000_000,
        -10_000_000_000 <= m10 <= 10_000_000_000,
    ensures
        ch == spec_channel255(c10 as int, m10 as int),
        0 <= ch <= RGB_UNIT_MAX,
{
    let sum = c10 + m10;
    if sum <= 0 {
        proof {
            // the numerator stays below the divisor, so the quotient is
            // at most zero and the clamp pins the channel to 0
            assert((2 * (sum as int * 255) + 10_000_000) / 20_000_000 <= 0);
        }
        0
    } else {
        normalize(ChannelKind::ColorComponent, div_round(sum * 255, 10_000_000))
    }
}

/// Converts an HSL triple (thousandths of a degree and of percents) to
/// an RGB triple (thousandths of 0..=255 components). Outputs are
/// normalized.
pub fn hsl_to_rgb(hsl: ColorTuple) -> (rgb: ColorTuple)
    requires
        0 <= hsl.0 <= HUE_MAX,
        0 <= hsl.1 <= PERCENT_MAX,
        0 <= hsl.2 <= PERCENT_MAX,
    ensures
        (rgb.0 as int, rgb.1 as int, rgb.2 as int) == spec_hsl_to_rgb(
            hsl.0 as int,
            hsl.1 as int,
            hsl.2 as int,
        ),
        0 <= rgb.0 <= RGB_UNIT_MAX && 0 <= rgb.1 <= RGB_UNIT_MAX && 0 <= rgb.2 <= RGB_UNIT_MAX,
{
    let (h, s, l) = hsl;
    let dl = 100_000 - (if 2 * l >= 100_000 {
        2 * l - 100_000
    } else {
        100_000 - 2 * l
    });
    proof {
        assert(0 <= dl as int * s as int <= 10_000_000_000) by (nonlinear_arith)
            requires
                0 <= dl <= 100_000,
                0 <= s <= 100_000,
        ;
    }
    let c10 = dl * s;
    let fade = 60_000 - (if h % 120_000 >= 60_000 {
        h % 120_000 - 60_000
    } else {
        60_000 - h % 120_000
    });
    proof {
        assert(0 <= c10 as int * fade as int <= 600_000_000_000_000) by (nonlinear_arith)
            requires
                0 <= c10 <= 10_000_000_000,
                0 <= fade <= 60_000,
        ;
    }
    let x10 = div_round(c10 * fade, 60_000);
    let m10 = l * 100_000 - c10 / 2;
    let k = (h / 60_000) % 6;
    proof {
        assert(spec_div_round(c10 as int * fade as int, 60_000) <= 10_000_000_000) by {
            assert((2 * (c10 as int * fade as int) + 60_000) / (120_000 as int) <= 10_000_000_000);
        }
    }
    if k == 0 {
        (channel255(c10, m10), channel255(x10, m10), channel255(0, m10))
    } else if k == 1 {
        (channel255(x10, m10), channel255(c10, m10), channel255(0, m10))
    } else if k == 2 {
        (channel255(0, m10), channel255(c10, m10), channel255(x10, m10))
    } else if k == 3 {
        (channel255(0, m10), channel255(x10, m10), channel255(c10, m10))
    } else if k == 4 {
        (channel255(x10, m10), channel255(0, m10), channel255(c10, m10))
    } else {
        (channel255(c10, m10), channel255(0, m10), channel255(x10, m10))
    }
}

/// The full HSV to RGB conversion: chroma `v * s`, offset `v - c`.
pub open spec fn spec_hsv_to_rgb(h: int, s: int, v: int) -> (int, int, int) {
    let c10 = v * s;
    let x10 = spec_div_round(c10 * spec_hue_fade(h), 60_000);
    let m10 = v * 100_000 - c10;
    let k = spec_sector(h);
    if k == 0 {
        (spec_channel255(c10, m10), spec_channel255(x10, m10), spec_channel255(0, m10))
    } else if k == 1 {
        (spec_channel255(x10, m10), spec_channel255(c10, m10), spec_channel255(0, m10))
    } else if k == 2 {
        (spec_channel255(0, m10), spec_channel255(c10, m10), spec_channel255(x10, m10))
    } else if k == 3 {
        (spec_channel255(0, m10), spec_channel255(x10, m10), spec_channel255(c10, m10))
    } else if k == 4 {
        (spec_channel255(x10, m10), spec_channel255(0, m10), spec_channel255(c10, m10))
    } else {
        (spec_channel255(c10, m10), spec_channel255(0, m10), spec_channel255(x10, m10))
    }
}

/// Converts an HSV triple to an RGB triple, the analogue of
/// [`hsl_to_rgb`].
pub fn hsv_to_rgb(hsv: ColorTuple) -> (rgb: ColorTuple)
    requires
        0 <= hsv.0 <= HUE_MAX,
        0 <= hsv.1 <= PERCENT_MAX,
        0 <= hsv.2 <= PERCENT_MAX,
    ensures
        (rgb.0 as int, rgb.1 as int, rgb.2 as int) == spec_hsv_to_rgb(
            hsv.0 as int,
            hsv.1 as int,
            hsv.2 as int,
        ),
        0 <= rgb.0 <= RGB_UNIT_MAX && 0 <= rgb.1 <= RGB_UNIT_MAX && 0 <= rgb.2 <= RGB_UNIT_MAX,
{
    let (h, s, v) = hsv;
    proof {
        assert(0 <= v as int * s as int <= 10_000_000_000) by (nonlinear_arith)
            requires
                0 <= v <= 100_000,
                0 <= s <= 100_000,
        ;
    }
    let c10 = v * s;
    let fade = 60_000 - (if h % 120_000 >= 60_000 {
        h % 120_000 - 60_000
    } else {
        60_000 - h % 120_000
    });
    proof {
        assert(0 <= c10 as int * fade as int <= 600_000_000_000_000) by (nonlinear_arith)
            requires
                0 <= c10 <= 10_000_000_000,
                0 <= fade <= 60_000,
        ;
    }
    let x10 = div_round(c10 * fade, 60_000);
    let m10 = v * 100_000 - c10;
    let k = (h / 60_000) % 6;
    proof {
        assert(spec_div_round(c10 as int * fade as int, 60_000) <= 10_000_000_000) by {
            assert((2 * (c10 as int * fade as int) + 60_000) / (120_000 as int) <= 10_000_000_000);
        }
    }
    if k == 0 {
        (channel255(c10, m10), channel255(x10, m10), channel255(0, m10))
    } else if k == 1 {
        (channel255(x10, m10), channel255(c10, m10), channel255(0, m10))
    } else if k == 2 {
        (channel255(0, m10), channel255(c10, m10), channel255(x10, m10))
    } else if k == 3 {
        (channel255(0, m10), channel255(x10, m10), channel255(c10, m10))
    } else if k == 4 {
        (channel255(x10, m10), channel255(0, m10), channel255(c10, m10))
    } else {
        (channel255(c10, m10), channel255(0, m10), channel255(x10, m10))
    }
}

fn max3(a: i64, b: i64, c: i64) -> (m: i64)
    requires
        i64::MIN < a && i64::MIN < b && i64::MIN < c,
    ensures
        m == spec_max3(a as int, b as int, c as int),
{
    if a >= b && a >= c {
        a
    } else if b >= c {
        b
    } else {
        c
    }
}

fn min3(a: i64, b: i64, c: i64) -> (m: i64)
    requires
        i64::MIN < a && i64::MIN < b && i64::MIN < c,
    ensures
        m == spec_min3(a as int, b as int, c as int),
{
    if a <= b && a <= c {
        a
    } else if b <= c {
        b
    } else {
        c
    }
}

} // verus!
