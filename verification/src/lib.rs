//! Color values in RGB and HSL/HSV color spaces: clamping normalization,
//! parsing from CSS-like functional notation, conversion between spaces,
//! and canonical CSS-formatted output.
//!
//! Every channel value is a fixed-point number of *thousandths* of a unit,
//! stored as an `i64`:
//! - red, green, blue: `0..=255_000` (an 8-bit component scale, 0.0..=255.0)
//! - hue: `0..=360_000` (degrees, 0.0..=360.0)
//! - saturation, lightness, value: `0..=100_000` (percent, 0.0..=100.0)
//! - alpha: `0..=1_000` (a ratio, 0.0..=1.0)
//!
//! A raw numeric channel that does not fit its range is clamped to the
//! nearest bound when a color value is constructed or mutated; textual
//! input with an out-of-range field is instead rejected by the parser.
//! This asymmetry (clamp on numbers, reject on text) is deliberate.

mod colors;
mod converters;
mod error;
mod from_str;
mod normalize;

pub use colors::{Hsl, Hsla, Rgb, Rgba};
pub use converters::{hsl_to_rgb, hsv_to_rgb, rgb_to_hsl, rgb_to_hsv};
pub use error::{make_parse_err, ParseError};
pub use from_str::{hsl_hsv_from_str, strings_from_name};
pub use normalize::{
    adjust, lemma_normalize_clamps, lemma_normalize_idempotent, lemma_normalize_in_range,
    normalize, ChannelKind, ALL_MIN,
    HUE_MAX, PERCENT_MAX, RATIO_MAX, RGB_UNIT_MAX,
};

use vstd::prelude::*;

verus! {

/// Tuple type for data exchange, `(red, green, blue)` or
/// `(hue, saturation, lightness)`, each entry in thousandths of a unit.
/// A tuple carries no range guarantee: only the typed color values
/// normalize their channels.
pub type ColorTuple = (i64, i64, i64);

/// Like [`ColorTuple`] but with a fourth alpha entry (thousandths of a ratio).
pub type ColorTupleA = (i64, i64, i64, i64);

/// Names one of the three RGB channels, for the `adjust_color` mutator
/// that adds a delta to a single channel.
#[derive(Clone, Copy)]
pub enum RgbColor {
    Red,
    Green,
    Blue,
}

/// The capability set every color value type offers: channel access,
/// clamping mutation, conversion to every other supported type, and the
/// canonical CSS text. Each implementation strengthens these signatures
/// with exact contracts over its own channels.
pub trait Color: Sized {
    /// The interchange tuple of this type, with or without alpha.
    type Tuple;

    /// The type's zero color.
    fn new() -> Self;

    /// Builds a color from an interchange tuple, clamping every entry.
    fn from_tuple(tuple: Self::Tuple) -> Self;

    /// The channels as an interchange tuple.
    fn as_tuple(&self) -> Self::Tuple;

    /// The red channel of the RGB form of this color, in thousandths.
    fn get_red(&self) -> i64;

    /// The green channel of the RGB form of this color, in thousandths.
    fn get_green(&self) -> i64;

    /// The blue channel of the RGB form of this color, in thousandths.
    fn get_blue(&self) -> i64;

    /// A new color whose RGB red channel is `val`, clamped.
    fn set_red(&self, val: i64) -> Self;

    /// A new color whose RGB green channel is `val`, clamped.
    fn set_green(&self, val: i64) -> Self;

    /// A new color whose RGB blue channel is `val`, clamped.
    fn set_blue(&self, val: i64) -> Self;

    /// The hue of the HSL form of this color, in thousandths of a degree.
    fn get_hue(&self) -> i64;

    /// The saturation of the HSL form, in thousandths of a percent.
    fn get_saturation(&self) -> i64;

    /// The lightness of the HSL form, in thousandths of a percent.
    fn get_lightness(&self) -> i64;

    /// A new color whose HSL hue is `val`, clamped.
    fn set_hue(&self, val: i64) -> Self;

    /// A new color whose HSL saturation is `val`, clamped.
    fn set_saturation(&self, val: i64) -> Self;

    /// A new color whose HSL lightness is `val`, clamped.
    fn set_lightness(&self, val: i64) -> Self;

    /// This color as RGB, dropping alpha.
    fn to_rgb(&self) -> Rgb;

    /// This color as RGBA; an absent alpha becomes 1.
    fn to_rgba(&self) -> Rgba;

    /// This color as HSL, dropping alpha.
    fn to_hsl(&self) -> Hsl;

    /// This color as HSLA; an absent alpha becomes 1.
    fn to_hsla(&self) -> Hsla;

    /// The canonical CSS text of this color.
    fn to_css_string(&self) -> String;

    /// Adds a delta to the HSL hue and clamps.
    fn adjust_hue(&self, amt: i64) -> Self;

    /// Adds a delta to the HSL saturation and clamps.
    fn saturate(&self, amt: i64) -> Self;

    /// Adds a delta to the HSL lightness and clamps.
    fn lighten(&self, amt: i64) -> Self;

    /// Adds a delta to one RGB channel and clamps.
    fn adjust_color(&self, col_name: RgbColor, val: i64) -> Self;
}

/// Alpha-channel access for the color types that carry one.
pub trait AlphaColor: Sized {
    /// The alpha ratio, in thousandths.
    fn get_alpha(&self) -> i64;

    /// A new color with alpha `a`, clamped into the ratio range.
    fn set_alpha(&self, a: i64) -> Self;

    /// A new color whose alpha is raised by `o`, clamped.
    fn opacify(&self, o: i64) -> Self;
}

} // verus!
