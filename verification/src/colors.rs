//! The color value types: [`Rgb`], [`Rgba`], [`Hsl`] and [`Hsla`].
//!
//! Every type is an immutable-by-convention value object whose channels
//! are fixed-point thousandths of a unit. Construction always
//! normalizes, every setter renormalizes, and each type carries its
//! range invariant. Cross-space conversions delegate to the converters;
//! `to_css_string` renders the canonical CSS functional notation with
//! channels rounded to whole units and alpha as a bare ratio.

use vstd::prelude::*;

use crate::converters::{
    rgb_to_hsl, hsl_to_rgb, spec_div_round, spec_hsl_to_rgb, spec_rgb_to_hsl,
};
use crate::error::ParseError;
use crate::from_str::hsl_hsv_from_str;
use crate::normalize::{
    adjust, normalize, spec_normalize, ChannelKind, HUE_MAX, PERCENT_MAX, RATIO_MAX, RGB_UNIT_MAX,
};
use crate::{AlphaColor, Color, ColorTuple, ColorTupleA, RgbColor};

verus! {

// ------------------------------------------------------------------
// rendering of channel values as CSS text
// ------------------------------------------------------------------

/// The character of one decimal digit.
pub open spec fn spec_digit_char(d: int) -> char {
    (48 + d) as char
}

/// The decimal digits of a nonnegative number, most significant first.
pub open spec fn spec_digits(n: int) -> Seq<char>
    decreases n,
{
    if n < 10 {
        seq![spec_digit_char(n)]
    } else {
        spec_digits(n / 10) + seq![spec_digit_char(n % 10)]
    }
}

/// An alpha ratio (thousandths) rendered as a bare decimal number with
/// the trailing zeros of the fraction dropped.
pub open spec fn spec_alpha_text(a: int) -> Seq<char> {
    if a >= 1000 {
        "1"@
    } else if a <= 0 {
        "0"@
    } else if a % 100 == 0 {
        "0."@ + seq![spec_digit_char(a / 100)]
    } else if a % 10 == 0 {
        "0."@ + seq![spec_digit_char(a / 100), spec_digit_char((a / 10) % 10)]
    } else {
        "0."@ + seq![
            spec_digit_char(a / 100),
            spec_digit_char((a / 10) % 10),
            spec_digit_char(a % 10),
        ]
    }
}

/// A channel in thousandths rounded to whole units, the form the CSS
/// text shows.
pub open spec fn spec_units(v: int) -> int {
    spec_div_round(v, 1000)
}

fn digit_str(d: u64) -> (s: &'static str)
    requires
        d < 10,
    ensures
        s@ == seq![spec_digit_char(d as int)],
{
    let s: &'static str = if d == 0 {
        "0"
    } else if d == 1 {
        "1"
    } else if d == 2 {
        "2"
    } else if d == 3 {
        "3"
    } else if d == 4 {
        "4"
    } else if d == 5 {
        "5"
    } else if d == 6 {
        "6"
    } else if d == 7 {
        "7"
    } else if d == 8 {
        "8"
    } else {
        "9"
    };
    proof {
        reveal_strlit("0");
        reveal_strlit("1");
        reveal_strlit("2");
        reveal_strlit("3");
        reveal_strlit("4");
        reveal_strlit("5");
        reveal_strlit("6");
        reveal_strlit("7");
        reveal_strlit("8");
        reveal_strlit("9");
        assert(s@ =~= seq![spec_digit_char(d as int)]);
    }
    s
}

fn uint_string(n: u64) -> (s: String)
    ensures
        s@ == spec_digits(n as int),
    decreases n,
{
    if n < 10 {
        String::from_str(digit_str(n))
    } else {
        let mut s = uint_string(n / 10);
        s.append(digit_str(n % 10));
        s
    }
}

fn round_units(v: i64) -> (u: u64)
    requires
        0 <= v <= 360_000,
    ensures
        u as int == spec_units(v as int),
{
    ((2 * v + 1000) / 2000) as u64
}

fn alpha_string(a: i64) -> (s: String)
    requires
        0 <= a <= RATIO_MAX,
    ensures
        s@ == spec_alpha_text(a as int),
{
    if a >= 1000 {
        String::from_str("1")
    } else if a <= 0 {
        String::from_str("0")
    } else {
        let mut s = String::from_str("0.");
        s.append(digit_str((a / 100) as u64));
        if a % 100 != 0 {
            s.append(digit_str(((a / 10) % 10) as u64));
            if a % 10 != 0 {
                s.append(digit_str((a % 10) as u64));
            }
        }
        s
    }
}

// ------------------------------------------------------------------
// Rgb
// ------------------------------------------------------------------

/// An RGB color: red, green and blue, each in thousandths of the
/// 0..=255 component scale, always in range.
#[derive(Debug, Clone, Copy, PartialEq)]
pub struct Rgb {
    r: i64,
    g: i64,
    b: i64,
}

impl Rgb {
    /// Every channel lies in the component range.
    #[verifier::type_invariant]
    pub closed spec fn inv(&self) -> bool {
        0 <= self.r <= RGB_UNIT_MAX && 0 <= self.g <= RGB_UNIT_MAX && 0 <= self.b <= RGB_UNIT_MAX
    }

    /// The red channel, in thousandths.
    pub closed spec fn red(&self) -> int {
        self.r as int
    }

    /// The green channel, in thousandths.
    pub closed spec fn green(&self) -> int {
        self.g as int
    }

    /// The blue channel, in thousandths.
    pub closed spec fn blue(&self) -> int {
        self.b as int
    }

    /// The HSL triple this color converts to.
    pub open spec fn hsl_channels(&self) -> (int, int, int) {
        spec_rgb_to_hsl(self.red(), self.green(), self.blue())
    }

    /// Builds an RGB color from raw channel values, clamping each into
    /// the component range.
    pub fn from(r: i64, g: i64, b: i64) -> (c: Rgb)
        ensures
            c.red() == spec_normalize(ChannelKind::ColorComponent, r as int),
            c.green() == spec_normalize(ChannelKind::ColorComponent, g as int),
            c.blue() == spec_normalize(ChannelKind::ColorComponent, b as int),
    {
        Rgb {
            r: normalize(ChannelKind::ColorComponent, r),
            g: normalize(ChannelKind::ColorComponent, g),
            b: normalize(ChannelKind::ColorComponent, b),
        }
    }
}

// ------------------------------------------------------------------
// Rgba
// ------------------------------------------------------------------

/// An RGB color with an alpha ratio (thousandths of 1).
#[derive(Debug, Clone, Copy, PartialEq)]
pub struct Rgba {
    r: i64,
    g: i64,
    b: i64,
    a: i64,
}

impl Rgba {
    /// Every channel lies in its range.
    #[verifier::type_invariant]
    pub closed spec fn inv(&self) -> bool {
        0 <= self.r <= RGB_UNIT_MAX && 0 <= self.g <= RGB_UNIT_MAX && 0 <= self.b <= RGB_UNIT_MAX
            && 0 <= self.a <= RATIO_MAX
    }

    /// The red channel, in thousandths.
    pub closed spec fn red(&self) -> int {
        self.r as int
    }

    /// The green channel, in thousandths.
    pub closed spec fn green(&self) -> int {
        self.g as int
    }

    /// The blue channel, in thousandths.
    pub closed spec fn blue(&self) -> int {
        self.b as int
    }

    /// The alpha ratio, in thousandths.
    pub closed spec fn alpha_millis(&self) -> int {
        self.a as int
    }

    /// The HSL triple this color converts to.
    pub open spec fn hsl_channels(&self) -> (int, int, int) {
        spec_rgb_to_hsl(self.red(), self.green(), self.blue())
    }

    /// Builds an RGBA color from raw channel values, clamping each into
    /// its range.
    pub fn from(r: i64, g: i64, b: i64, a: i64) -> (c: Rgba)
        ensures
            c.red() == spec_normalize(ChannelKind::ColorComponent, r as int),
            c.green() == spec_normalize(ChannelKind::ColorComponent, g as int),
            c.blue() == spec_normalize(ChannelKind::ColorComponent, b as int),
            c.alpha_millis() == spec_normalize(ChannelKind::Ratio, a as int),
    {
        Rgba {
            r: normalize(ChannelKind::ColorComponent, r),
            g: normalize(ChannelKind::ColorComponent, g),
            b: normalize(ChannelKind::ColorComponent, b),
            a: normalize(ChannelKind::Ratio, a),
        }
    }
}

// ------------------------------------------------------------------
// Hsl
// ------------------------------------------------------------------

/// An HSL color: hue in thousandths of a degree, saturation and
/// lightness in thousandths of a percent, and an optional alpha ratio.
/// An absent alpha reads as 1; its presence matters only for the CSS
/// text, which then uses the `hsla` form.
#[derive(Debug, Clone, Copy, PartialEq)]
pub struct Hsl {
    h: i64,
    s: i64,
    l: i64,
    a: Option<i64>,
}

impl Hsl {
    /// Every channel lies in its range.
    #[verifier::type_invariant]
    pub closed spec fn inv(&self) -> bool {
        0 <= self.h <= HUE_MAX && 0 <= self.s <= PERCENT_MAX && 0 <= self.l <= PERCENT_MAX
            && match self.a {
            Some(a) => 0 <= a <= RATIO_MAX,
            None => true,
        }
    }

    /// The hue, in thousandths of a degree.
    pub closed spec fn hue(&self) -> int {
        self.h as int
    }

    /// The saturation, in thousandths of a percent.
    pub closed spec fn sat(&self) -> int {
        self.s as int
    }

    /// The lightness, in thousandths of a percent.
    pub closed spec fn light(&self) -> int {
        self.l as int
    }

    /// Whether an alpha ratio is stored.
    pub closed spec fn has_alpha(&self) -> bool {
        self.a is Some
    }

    /// The alpha ratio in thousandths; 1 when absent.
    pub closed spec fn alpha_millis(&self) -> int {
        match self.a {
            Some(a) => a as int,
            None => RATIO_MAX as int,
        }
    }

    /// The RGB triple this color converts to.
    pub open spec fn rgb_channels(&self) -> (int, int, int) {
        spec_hsl_to_rgb(self.hue(), self.sat(), self.light())
    }

    /// Law: an HSL color without a stored alpha reports the alpha ratio
    /// 1 (fully opaque).
    pub proof fn lemma_absent_alpha_is_opaque(&self)
        ensures
            !self.has_alpha() ==> self.alpha_millis() == RATIO_MAX,
    {
    }

    /// The all-zero HSL color, without alpha.
    pub fn default() -> (c: Hsl)
        ensures
            c.hue() == 0 && c.sat() == 0 && c.light() == 0,
            !c.has_alpha() && c.alpha_millis() == RATIO_MAX,
    {
        Hsl { h: 0, s: 0, l: 0, a: None }
    }

    /// Builds an HSL color from raw channel values, clamping each into
    /// its range; no alpha is stored.
    pub fn from(h: i64, s: i64, l: i64) -> (c: Hsl)
        ensures
            c.hue() == spec_normalize(ChannelKind::Hue, h as int),
            c.sat() == spec_normalize(ChannelKind::Percent, s as int),
            c.light() == spec_normalize(ChannelKind::Percent, l as int),
            !c.has_alpha() && c.alpha_millis() == RATIO_MAX,
    {
        Hsl {
            h: normalize(ChannelKind::Hue, h),
            s: normalize(ChannelKind::Percent, s),
            l: normalize(ChannelKind::Percent, l),
            a: None,
        }
    }

    /// Like [`Hsl::from`], with an alpha ratio, clamped as well.
    pub fn from_with_alpha(h: i64, s: i64, l: i64, a: i64) -> (c: Hsl)
        ensures
            c.hue() == spec_normalize(ChannelKind::Hue, h as int),
            c.sat() == spec_normalize(ChannelKind::Percent, s as int),
            c.light() == spec_normalize(ChannelKind::Percent, l as int),
            c.has_alpha() && c.alpha_millis() == spec_normalize(ChannelKind::Ratio, a as int),
    {
        Hsl {
            h: normalize(ChannelKind::Hue, h),
            s: normalize(ChannelKind::Percent, s),
            l: normalize(ChannelKind::Percent, l),
            a: Some(normalize(ChannelKind::Ratio, a)),
        }
    }

    /// Builds an HSL color from a `(hue, saturation, lightness)` tuple,
    /// clamping each entry.
    pub fn from_tuple(t: &ColorTuple) -> (c: Hsl)
        ensures
            c.hue() == spec_normalize(ChannelKind::Hue, t.0 as int),
            c.sat() == spec_normalize(ChannelKind::Percent, t.1 as int),
            c.light() == spec_normalize(ChannelKind::Percent, t.2 as int),
            !c.has_alpha() && c.alpha_millis() == RATIO_MAX,
    {
        Hsl::from(t.0, t.1, t.2)
    }

    /// Builds an HSL color from a tuple with a fourth alpha entry.
    pub fn from_tuple_with_alpha(t: &ColorTupleA) -> (c: Hsl)
        ensures
            c.hue() == spec_normalize(ChannelKind::Hue, t.0 as int),
            c.sat() == spec_normalize(ChannelKind::Percent, t.1 as int),
            c.light() == spec_normalize(ChannelKind::Percent, t.2 as int),
            c.has_alpha() && c.alpha_millis() == spec_normalize(ChannelKind::Ratio, t.3 as int),
    {
        Hsl::from_with_alpha(t.0, t.1, t.2, t.3)
    }

    /// Parses CSS `hsl(...)`/`hsla(...)` text into an HSL color. The
    /// parser rejects malformed or out-of-range text; an accepted text's
    /// fields are already in range, and are stored as they are.
    pub fn from_str(s: &str) -> (res: Result<Hsl, ParseError>)
        ensures
            ({
                let cs = crate::from_str::canon(s@);
                &&& crate::from_str::accepts(cs, 'l', false) ==> (res matches Ok(c) && c.hue()
                    == crate::from_str::field_millis(cs, 'l', false, 0) && c.sat()
                    == crate::from_str::field_millis(cs, 'l', false, 1) && c.light()
                    == crate::from_str::field_millis(cs, 'l', false, 2) && !c.has_alpha())
                &&& crate::from_str::accepts(cs, 'l', true) ==> (res matches Ok(c) && c.hue()
                    == crate::from_str::field_millis(cs, 'l', true, 0) && c.sat()
                    == crate::from_str::field_millis(cs, 'l', true, 1) && c.light()
                    == crate::from_str::field_millis(cs, 'l', true, 2) && c.has_alpha()
                    && c.alpha_millis() == crate::from_str::field_millis(cs, 'l', true, 3))
                &&& !crate::from_str::accepts(cs, 'l', false) && !crate::from_str::accepts(
                    cs,
                    'l',
                    true,
                ) ==> (res matches Err(e) && e.input@ == s@ && e.expected@ == "hsl or hsla"@)
            }),
    {
        proof {
            reveal_strlit("hsl");
        }
        let ghost cs = crate::from_str::canon(s@);
        match hsl_hsv_from_str(s, "hsl") {
            Ok((t, alpha)) => {
                match alpha {
                    Some(a) => {
                        proof {
                            assert(crate::from_str::accepts(cs, 'l', true));
                            assert(0 <= crate::from_str::field_millis(cs, 'l', true, 0)
                                <= HUE_MAX);
                            assert(0 <= crate::from_str::field_millis(cs, 'l', true, 1)
                                <= PERCENT_MAX);
                            assert(0 <= crate::from_str::field_millis(cs, 'l', true, 2)
                                <= PERCENT_MAX);
                            assert(0 <= crate::from_str::field_millis(cs, 'l', true, 3)
                                <= RATIO_MAX);
                        }
                        Ok(Hsl { h: t.0, s: t.1, l: t.2, a: Some(a) })
                    },
                    None => {
                        proof {
                            assert(crate::from_str::accepts(cs, 'l', false));
                            assert(0 <= crate::from_str::field_millis(cs, 'l', false, 0)
                                <= HUE_MAX);
                            assert(0 <= crate::from_str::field_millis(cs, 'l', false, 1)
                                <= PERCENT_MAX);
                            assert(0 <= crate::from_str::field_millis(cs, 'l', false, 2)
                                <= PERCENT_MAX);
                        }
                        Ok(Hsl { h: t.0, s: t.1, l: t.2, a: None })
                    },
                }
            },
            Err(e) => Err(e),
        }
    }

    /// The three channels, as a tuple.
    pub fn as_tuple(&self) -> (t: ColorTuple)
        ensures
            t.0 as int == self.hue() && t.1 as int == self.sat() && t.2 as int == self.light(),
            0 <= t.0 <= HUE_MAX && 0 <= t.1 <= PERCENT_MAX && 0 <= t.2 <= PERCENT_MAX,
    {
        proof {
            use_type_invariant(self);
        }
        (self.h, self.s, self.l)
    }

    /// The three channels and the alpha ratio, as a tuple.
    pub fn as_tuple_with_alpha(&self) -> (t: ColorTupleA)
        ensures
            t.0 as int == self.hue() && t.1 as int == self.sat() && t.2 as int == self.light(),
            t.3 as int == self.alpha_millis(),
            !self.has_alpha() ==> t.3 == RATIO_MAX,
    {
        proof {
            use_type_invariant(self);
        }
        (self.h, self.s, self.l, self.get_alpha())
    }

    /// The hue, in thousandths of a degree.
    pub fn get_hue(&self) -> (r: i64)
        ensures
            r as int == self.hue(),
            0 <= r <= HUE_MAX,
    {
        proof {
            use_type_invariant(self);
        }
        self.h
    }

    /// The saturation, in thousandths of a percent.
    pub fn get_saturation(&self) -> (r: i64)
        ensures
            r as int == self.sat(),
            0 <= r <= PERCENT_MAX,
    {
        proof {
            use_type_invariant(self);
        }
        self.s
    }

    /// The lightness, in thousandths of a percent.
    pub fn get_lightness(&self) -> (r: i64)
        ensures
            r as int == self.light(),
            0 <= r <= PERCENT_MAX,
    {
        proof {
            use_type_invariant(self);
        }
        self.l
    }

    /// The alpha ratio in thousandths, 1000 (a ratio of 1) when none is
    /// stored.
    pub fn get_alpha(&self) -> (r: i64)
        ensures
            r as int == self.alpha_millis(),
            !self.has_alpha() ==> r == RATIO_MAX,
            0 <= r <= RATIO_MAX,
    {
        proof {
            use_type_invariant(self);
        }
        match self.a {
            Some(a) => a,
            None => RATIO_MAX,
        }
    }

    /// Replaces the hue with `val`, clamped into the hue range.
    pub fn set_hue(&mut self, val: i64)
        ensures
            final (self).hue() == spec_normalize(ChannelKind::Hue, val as int),
            final (self).sat() == old(self).sat(),
            final (self).light() == old(self).light(),
            final (self).has_alpha() == old(self).has_alpha(),
            final (self).alpha_millis() == old(self).alpha_millis(),
    {
        proof {
            use_type_invariant(&*self);
        }
        *self = Hsl { h: normalize(ChannelKind::Hue, val), s: self.s, l: self.l, a: self.a };
    }

    /// Replaces the saturation with `val`, clamped into the percent
    /// range.
    pub fn set_saturation(&mut self, val: i64)
        ensures
            final (self).sat() == spec_normalize(ChannelKind::Percent, val as int),
            final (self).hue() == old(self).hue(),
            final (self).light() == old(self).light(),
            final (self).has_alpha() == old(self).has_alpha(),
            final (self).alpha_millis() == old(self).alpha_millis(),
    {
        proof {
            use_type_invariant(&*self);
        }
        *self = Hsl { h: self.h, s: normalize(ChannelKind::Percent, val), l: self.l, a: self.a };
    }

    /// Replaces the lightness with `val`, clamped into the percent
    /// range.
    pub fn set_lightness(&mut self, val: i64)
        ensures
            final (self).light() == spec_normalize(ChannelKind::Percent, val as int),
            final (self).hue() == old(self).hue(),
            final (self).sat() == old(self).sat(),
            final (self).has_alpha() == old(self).has_alpha(),
            final (self).alpha_millis() == old(self).alpha_millis(),
    {
        proof {
            use_type_invariant(&*self);
        }
        *self = Hsl { h: self.h, s: self.s, l: normalize(ChannelKind::Percent, val), a: self.a };
    }

    /// Stores an alpha ratio, clamped into the ratio range.
    pub fn set_alpha(&mut self, val: i64)
        ensures
            final (self).has_alpha() && final (self).alpha_millis() == spec_normalize(
                ChannelKind::Ratio,
                val as int,
            ),
            final (self).hue() == old(self).hue(),
            final (self).sat() == old(self).sat(),
            final (self).light() == old(self).light(),
    {
        proof {
            use_type_invariant(&*self);
        }
        *self = Hsl {
            h: self.h,
            s: self.s,
            l: self.l,
            a: Some(normalize(ChannelKind::Ratio, val)),
        };
    }
}

// ------------------------------------------------------------------
// Hsla
// ------------------------------------------------------------------

/// An HSL color whose alpha ratio is always present.
#[derive(Debug, Clone, Copy, PartialEq)]
pub struct Hsla {
    h: i64,
    s: i64,
    l: i64,
    a: i64,
}

impl Hsla {
    /// Every channel lies in its range.
    #[verifier::type_invariant]
    pub closed spec fn inv(&self) -> bool {
        0 <= self.h <= HUE_MAX && 0 <= self.s <= PERCENT_MAX && 0 <= self.l <= PERCENT_MAX && 0
            <= self.a <= RATIO_MAX
    }

    /// The hue, in thousandths of a degree.
    pub closed spec fn hue(&self) -> int {
        self.h as int
    }

    /// The saturation, in thousandths of a percent.
    pub closed spec fn sat(&self) -> int {
        self.s as int
    }

    /// The lightness, in thousandths of a percent.
    pub closed spec fn light(&self) -> int {
        self.l as int
    }

    /// The alpha ratio, in thousandths.
    pub closed spec fn alpha_millis(&self) -> int {
        self.a as int
    }

    /// The RGB triple this color converts to.
    pub open spec fn rgb_channels(&self) -> (int, int, int) {
        spec_hsl_to_rgb(self.hue(), self.sat(), self.light())
    }

    /// Builds an HSLA color from raw channel values, clamping each into
    /// its range.
    pub fn from(h: i64, s: i64, l: i64, a: i64) -> (c: Hsla)
        ensures
            c.hue() == spec_normalize(ChannelKind::Hue, h as int),
            c.sat() == spec_normalize(ChannelKind::Percent, s as int),
            c.light() == spec_normalize(ChannelKind::Percent, l as int),
            c.alpha_millis() == spec_normalize(ChannelKind::Ratio, a as int),
    {
        Hsla {
            h: normalize(ChannelKind::Hue, h),
            s: normalize(ChannelKind::Percent, s),
            l: normalize(ChannelKind::Percent, l),
            a: normalize(ChannelKind::Ratio, a),
        }
    }
}


// ------------------------------------------------------------------
// CSS text of each type
// ------------------------------------------------------------------

/// The CSS text of an RGB color, channels rounded to whole units.
pub open spec fn spec_css_rgb(r: int, g: int, b: int) -> Seq<char> {
    "rgb("@ + spec_digits(spec_units(r)) + ","@ + spec_digits(spec_units(g)) + ","@ + spec_digits(
        spec_units(b),
    ) + ")"@
}

/// The CSS text of an RGBA color: like [`spec_css_rgb`] with the alpha
/// ratio as a bare fourth number.
pub open spec fn spec_css_rgba(r: int, g: int, b: int, a: int) -> Seq<char> {
    "rgba("@ + spec_digits(spec_units(r)) + ","@ + spec_digits(spec_units(g)) + ","@ + spec_digits(
        spec_units(b),
    ) + ","@ + spec_alpha_text(a) + ")"@
}

/// The CSS text of an HSL color without alpha: percent signs on
/// saturation and lightness, none on the hue.
pub open spec fn spec_css_hsl(h: int, s: int, l: int) -> Seq<char> {
    "hsl("@ + spec_digits(spec_units(h)) + ","@ + spec_digits(spec_units(s)) + "%,"@ + spec_digits(
        spec_units(l),
    ) + "%)"@
}

/// The CSS text of an HSL color with alpha, in the `hsla` form.
pub open spec fn spec_css_hsla(h: int, s: int, l: int, a: int) -> Seq<char> {
    "hsla("@ + spec_digits(spec_units(h)) + ","@ + spec_digits(spec_units(s)) + "%,"@
        + spec_digits(spec_units(l)) + "%,"@ + spec_alpha_text(a) + ")"@
}

// ------------------------------------------------------------------
// the shared capability set
// ------------------------------------------------------------------

impl core::str::FromStr for Hsl {
    type Err = ParseError;

    fn from_str(s: &str) -> Result<Hsl, ParseError> {
        Hsl::from_str(s)
    }
}

impl Color for Rgb {
    type Tuple = ColorTuple;

    fn new() -> (c: Rgb)
        ensures
            c.red() == 0 && c.green() == 0 && c.blue() == 0,
    {
        Rgb { r: 0, g: 0, b: 0 }
    }

    fn from_tuple(tuple: ColorTuple) -> (c: Rgb)
        ensures
            c.red() == spec_normalize(ChannelKind::ColorComponent, tuple.0 as int),
            c.green() == spec_normalize(ChannelKind::ColorComponent, tuple.1 as int),
            c.blue() == spec_normalize(ChannelKind::ColorComponent, tuple.2 as int),
    {
        Rgb::from(tuple.0, tuple.1, tuple.2)
    }

    fn as_tuple(&self) -> (t: ColorTuple)
        ensures
            t.0 as int == self.red() && t.1 as int == self.green() && t.2 as int == self.blue(),
            0 <= t.0 <= RGB_UNIT_MAX && 0 <= t.1 <= RGB_UNIT_MAX && 0 <= t.2 <= RGB_UNIT_MAX,
    {
        proof {
            use_type_invariant(self);
        }
        (self.r, self.g, self.b)
    }

    fn get_red(&self) -> (r: i64)
        ensures
            r as int == self.red(),
    {
        proof {
            use_type_invariant(self);
        }
        self.r
    }

    fn get_green(&self) -> (r: i64)
        ensures
            r as int == self.green(),
    {
        proof {
            use_type_invariant(self);
        }
        self.g
    }

    fn get_blue(&self) -> (r: i64)
        ensures
            r as int == self.blue(),
    {
        proof {
            use_type_invariant(self);
        }
        self.b
    }

    fn set_red(&self, val: i64) -> (c: Rgb)
        ensures
            c.red() == spec_normalize(ChannelKind::ColorComponent, val as int),
            c.green() == self.green() && c.blue() == self.blue(),
    {
        proof {
            use_type_invariant(self);
        }
        Rgb { r: normalize(ChannelKind::ColorComponent, val), g: self.g, b: self.b }
    }

    fn set_green(&self, val: i64) -> (c: Rgb)
        ensures
            c.green() == spec_normalize(ChannelKind::ColorComponent, val as int),
            c.red() == self.red() && c.blue() == self.blue(),
    {
        proof {
            use_type_invariant(self);
        }
        Rgb { r: self.r, g: normalize(ChannelKind::ColorComponent, val), b: self.b }
    }

    fn set_blue(&self, val: i64) -> (c: Rgb)
        ensures
            c.blue() == spec_normalize(ChannelKind::ColorComponent, val as int),
            c.red() == self.red() && c.green() == self.green(),
    {
        proof {
            use_type_invariant(self);
        }
        Rgb { r: self.r, g: self.g, b: normalize(ChannelKind::ColorComponent, val) }
    }

    fn get_hue(&self) -> (r: i64)
        ensures
            r as int == self.hsl_channels().0,
    {
        let (h, _s, _l) = rgb_to_hsl(self.as_tuple());
        h
    }

    fn get_saturation(&self) -> (r: i64)
        ensures
            r as int == self.hsl_channels().1,
    {
        let (_h, s, _l) = rgb_to_hsl(self.as_tuple());
        s
    }

    fn get_lightness(&self) -> (r: i64)
        ensures
            r as int == self.hsl_channels().2,
    {
        let (_h, _s, l) = rgb_to_hsl(self.as_tuple());
        l
    }

    fn set_hue(&self, val: i64) -> (c: Rgb)
        ensures
            (c.red(), c.green(), c.blue()) == spec_hsl_to_rgb(
                spec_normalize(ChannelKind::Hue, val as int),
                self.hsl_channels().1,
                self.hsl_channels().2,
            ),
    {
        let (_h, s, l) = rgb_to_hsl(self.as_tuple());
        let (r, g, b) = hsl_to_rgb((normalize(ChannelKind::Hue, val), s, l));
        Rgb::from(r, g, b)
    }

    fn set_saturation(&self, val: i64) -> (c: Rgb)
        ensures
            (c.red(), c.green(), c.blue()) == spec_hsl_to_rgb(
                self.hsl_channels().0,
                spec_normalize(ChannelKind::Percent, val as int),
                self.hsl_channels().2,
            ),
    {
        let (h, _s, l) = rgb_to_hsl(self.as_tuple());
        let (r, g, b) = hsl_to_rgb((h, normalize(ChannelKind::Percent, val), l));
        Rgb::from(r, g, b)
    }

    fn set_lightness(&self, val: i64) -> (c: Rgb)
        ensures
            (c.red(), c.green(), c.blue()) == spec_hsl_to_rgb(
                self.hsl_channels().0,
                self.hsl_channels().1,
                spec_normalize(ChannelKind::Percent, val as int),
            ),
    {
        let (h, s, _l) = rgb_to_hsl(self.as_tuple());
        let (r, g, b) = hsl_to_rgb((h, s, normalize(ChannelKind::Percent, val)));
        Rgb::from(r, g, b)
    }

    fn to_rgb(&self) -> (c: Rgb)
        ensures
            c.red() == self.red() && c.green() == self.green() && c.blue() == self.blue(),
    {
        proof {
            use_type_invariant(self);
        }
        *self
    }

    fn to_rgba(&self) -> (c: Rgba)
        ensures
            c.red() == self.red() && c.green() == self.green() && c.blue() == self.blue(),
            c.alpha_millis() == RATIO_MAX,
    {
        proof {
            use_type_invariant(self);
        }
        Rgba { r: self.r, g: self.g, b: self.b, a: RATIO_MAX }
    }

    fn to_hsl(&self) -> (c: Hsl)
        ensures
            (c.hue(), c.sat(), c.light()) == self.hsl_channels(),
            !c.has_alpha(),
    {
        let (h, s, l) = rgb_to_hsl(self.as_tuple());
        Hsl { h, s, l, a: None }
    }

    fn to_hsla(&self) -> (c: Hsla)
        ensures
            (c.hue(), c.sat(), c.light()) == self.hsl_channels(),
            c.alpha_millis() == RATIO_MAX,
    {
        let (h, s, l) = rgb_to_hsl(self.as_tuple());
        Hsla { h, s, l, a: RATIO_MAX }
    }

    fn to_css_string(&self) -> (out: String)
        ensures
            out@ == spec_css_rgb(self.red(), self.green(), self.blue()),
    {
        proof {
            use_type_invariant(self);
        }
        let mut out = String::from_str("rgb(");
        out.append(uint_string(round_units(self.r)).as_str());
        out.append(",");
        out.append(uint_string(round_units(self.g)).as_str());
        out.append(",");
        out.append(uint_string(round_units(self.b)).as_str());
        out.append(")");
        out
    }

    fn adjust_hue(&self, amt: i64) -> (c: Rgb)
        ensures
            (c.red(), c.green(), c.blue()) == spec_hsl_to_rgb(
                spec_normalize(ChannelKind::Hue, self.hsl_channels().0 + amt),
                self.hsl_channels().1,
                self.hsl_channels().2,
            ),
    {
        let (h, s, l) = rgb_to_hsl(self.as_tuple());
        let (r, g, b) = hsl_to_rgb((adjust(ChannelKind::Hue, h, amt), s, l));
        Rgb::from(r, g, b)
    }

    fn saturate(&self, amt: i64) -> (c: Rgb)
        ensures
            (c.red(), c.green(), c.blue()) == spec_hsl_to_rgb(
                self.hsl_channels().0,
                spec_normalize(ChannelKind::Percent, self.hsl_channels().1 + amt),
                self.hsl_channels().2,
            ),
    {
        let (h, s, l) = rgb_to_hsl(self.as_tuple());
        let (r, g, b) = hsl_to_rgb((h, adjust(ChannelKind::Percent, s, amt), l));
        Rgb::from(r, g, b)
    }

    fn lighten(&self, amt: i64) -> (c: Rgb)
        ensures
            (c.red(), c.green(), c.blue()) == spec_hsl_to_rgb(
                self.hsl_channels().0,
                self.hsl_channels().1,
                spec_normalize(ChannelKind::Percent, self.hsl_channels().2 + amt),
            ),
    {
        let (h, s, l) = rgb_to_hsl(self.as_tuple());
        let (r, g, b) = hsl_to_rgb((h, s, adjust(ChannelKind::Percent, l, amt)));
        Rgb::from(r, g, b)
    }

    fn adjust_color(&self, col_name: RgbColor, val: i64) -> (c: Rgb)
        ensures
            match col_name {
                RgbColor::Red => c.red() == spec_normalize(
                    ChannelKind::ColorComponent,
                    self.red() + val,
                ) && c.green() == self.green() && c.blue() == self.blue(),
                RgbColor::Green => c.green() == spec_normalize(
                    ChannelKind::ColorComponent,
                    self.green() + val,
                ) && c.red() == self.red() && c.blue() == self.blue(),
                RgbColor::Blue => c.blue() == spec_normalize(
                    ChannelKind::ColorComponent,
                    self.blue() + val,
                ) && c.red() == self.red() && c.green() == self.green(),
            },
    {
        proof {
            use_type_invariant(self);
        }
        match col_name {
            RgbColor::Red => Rgb {
                r: adjust(ChannelKind::ColorComponent, self.r, val),
                g: self.g,
                b: self.b,
            },
            RgbColor::Green => Rgb {
                r: self.r,
                g: adjust(ChannelKind::ColorComponent, self.g, val),
                b: self.b,
            },
            RgbColor::Blue => Rgb {
                r: self.r,
                g: self.g,
                b: adjust(ChannelKind::ColorComponent, self.b, val),
            },
        }
    }
}

impl Hsl {
    pub fn get_red(&self) -> (r: i64)
        ensures
            r as int == self.rgb_channels().0,
    {
        let (r, _g, _b) = hsl_to_rgb(Hsl::as_tuple(self));
        r
    }

    pub fn get_green(&self) -> (r: i64)
        ensures
            r as int == self.rgb_channels().1,
    {
        let (_r, g, _b) = hsl_to_rgb(Hsl::as_tuple(self));
        g
    }

    pub fn get_blue(&self) -> (r: i64)
        ensures
            r as int == self.rgb_channels().2,
    {
        let (_r, _g, b) = hsl_to_rgb(Hsl::as_tuple(self));
        b
    }

    pub fn set_red(&self, val: i64) -> (c: Hsl)
        ensures
            (c.hue(), c.sat(), c.light()) == spec_rgb_to_hsl(
                spec_normalize(ChannelKind::ColorComponent, val as int),
                self.rgb_channels().1,
                self.rgb_channels().2,
            ),
            c.has_alpha() == self.has_alpha() && c.alpha_millis() == self.alpha_millis(),
    {
        proof {
            use_type_invariant(self);
        }
        let (_r, g, b) = hsl_to_rgb(Hsl::as_tuple(self));
        let (h, s, l) = rgb_to_hsl((normalize(ChannelKind::ColorComponent, val), g, b));
        Hsl { h, s, l, a: self.a }
    }

    pub fn set_green(&self, val: i64) -> (c: Hsl)
        ensures
            (c.hue(), c.sat(), c.light()) == spec_rgb_to_hsl(
                self.rgb_channels().0,
                spec_normalize(ChannelKind::ColorComponent, val as int),
                self.rgb_channels().2,
            ),
            c.has_alpha() == self.has_alpha() && c.alpha_millis() == self.alpha_millis(),
    {
        proof {
            use_type_invariant(self);
        }
        let (r, _g, b) = hsl_to_rgb(Hsl::as_tuple(self));
        let (h, s, l) = rgb_to_hsl((r, normalize(ChannelKind::ColorComponent, val), b));
        Hsl { h, s, l, a: self.a }
    }

    pub fn set_blue(&self, val: i64) -> (c: Hsl)
        ensures
            (c.hue(), c.sat(), c.light()) == spec_rgb_to_hsl(
                self.rgb_channels().0,
                self.rgb_channels().1,
                spec_normalize(ChannelKind::ColorComponent, val as int),
            ),
            c.has_alpha() == self.has_alpha() && c.alpha_millis() == self.alpha_millis(),
    {
        proof {
            use_type_invariant(self);
        }
        let (r, g, _b) = hsl_to_rgb(Hsl::as_tuple(self));
        let (h, s, l) = rgb_to_hsl((r, g, normalize(ChannelKind::ColorComponent, val)));
        Hsl { h, s, l, a: self.a }
    }

    pub fn to_rgb(&self) -> (c: Rgb)
        ensures
            (c.red(), c.green(), c.blue()) == self.rgb_channels(),
    {
        let (r, g, b) = hsl_to_rgb(Hsl::as_tuple(self));
        Rgb { r, g, b }
    }

    pub fn to_rgba(&self) -> (c: Rgba)
        ensures
            (c.red(), c.green(), c.blue()) == self.rgb_channels(),
            c.alpha_millis() == self.alpha_millis(),
    {
        let (r, g, b) = hsl_to_rgb(Hsl::as_tuple(self));
        Rgba { r, g, b, a: Hsl::get_alpha(self) }
    }

    pub fn to_hsla(&self) -> (c: Hsla)
        ensures
            c.hue() == self.hue() && c.sat() == self.sat() && c.light() == self.light(),
            c.alpha_millis() == self.alpha_millis(),
    {
        proof {
            use_type_invariant(self);
        }
        Hsla { h: self.h, s: self.s, l: self.l, a: Hsl::get_alpha(self) }
    }

    pub fn to_css_string(&self) -> (out: String)
        ensures
            out@ == if self.has_alpha() {
                spec_css_hsla(self.hue(), self.sat(), self.light(), self.alpha_millis())
            } else {
                spec_css_hsl(self.hue(), self.sat(), self.light())
            },
    {
        proof {
            use_type_invariant(self);
        }
        match self.a {
            None => {
                let mut out = String::from_str("hsl(");
                out.append(uint_string(round_units(self.h)).as_str());
                out.append(",");
                out.append(uint_string(round_units(self.s)).as_str());
                out.append("%,");
                out.append(uint_string(round_units(self.l)).as_str());
                out.append("%)");
                out
            },
            Some(av) => {
                let mut out = String::from_str("hsla(");
                out.append(uint_string(round_units(self.h)).as_str());
                out.append(",");
                out.append(uint_string(round_units(self.s)).as_str());
                out.append("%,");
                out.append(uint_string(round_units(self.l)).as_str());
                out.append("%,");
                out.append(alpha_string(av).as_str());
                out.append(")");
                out
            },
        }
    }

    pub fn adjust_hue(&self, amt: i64) -> (c: Hsl)
        ensures
            c.hue() == spec_normalize(ChannelKind::Hue, self.hue() + amt),
            c.sat() == self.sat() && c.light() == self.light(),
            c.has_alpha() == self.has_alpha() && c.alpha_millis() == self.alpha_millis(),
    {
        proof {
            use_type_invariant(self);
        }
        Hsl { h: adjust(ChannelKind::Hue, self.h, amt), s: self.s, l: self.l, a: self.a }
    }

    pub fn saturate(&self, amt: i64) -> (c: Hsl)
        ensures
            c.sat() == spec_normalize(ChannelKind::Percent, self.sat() + amt),
            c.hue() == self.hue() && c.light() == self.light(),
            c.has_alpha() == self.has_alpha() && c.alpha_millis() == self.alpha_millis(),
    {
        proof {
            use_type_invariant(self);
        }
        Hsl { h: self.h, s: adjust(ChannelKind::Percent, self.s, amt), l: self.l, a: self.a }
    }

    pub fn lighten(&self, amt: i64) -> (c: Hsl)
        ensures
            c.light() == spec_normalize(ChannelKind::Percent, self.light() + amt),
            c.hue() == self.hue() && c.sat() == self.sat(),
            c.has_alpha() == self.has_alpha() && c.alpha_millis() == self.alpha_millis(),
    {
        proof {
            use_type_invariant(self);
        }
        Hsl { h: self.h, s: self.s, l: adjust(ChannelKind::Percent, self.l, amt), a: self.a }
    }

    pub fn adjust_color(&self, col_name: RgbColor, val: i64) -> (c: Hsl)
        ensures
            ({
                let (r0, g0, b0) = self.rgb_channels();
                (c.hue(), c.sat(), c.light()) == match col_name {
                    RgbColor::Red => spec_rgb_to_hsl(
                        spec_normalize(ChannelKind::ColorComponent, r0 + val),
                        g0,
                        b0,
                    ),
                    RgbColor::Green => spec_rgb_to_hsl(
                        r0,
                        spec_normalize(ChannelKind::ColorComponent, g0 + val),
                        b0,
                    ),
                    RgbColor::Blue => spec_rgb_to_hsl(
                        r0,
                        g0,
                        spec_normalize(ChannelKind::ColorComponent, b0 + val),
                    ),
                }
            }),
            c.has_alpha() == self.has_alpha() && c.alpha_millis() == self.alpha_millis(),
    {
        proof {
            use_type_invariant(self);
        }
        let (r, g, b) = hsl_to_rgb(Hsl::as_tuple(self));
        let adjusted = match col_name {
            RgbColor::Red => (adjust(ChannelKind::ColorComponent, r, val), g, b),
            RgbColor::Green => (r, adjust(ChannelKind::ColorComponent, g, val), b),
            RgbColor::Blue => (r, g, adjust(ChannelKind::ColorComponent, b, val)),
        };
        let (h, s, l) = rgb_to_hsl(adjusted);
        Hsl { h, s, l, a: self.a }
    }
}

impl Color for Rgba {
    type Tuple = ColorTupleA;

    fn new() -> (c: Rgba)
        ensures
            c.red() == 0 && c.green() == 0 && c.blue() == 0,
            c.alpha_millis() == RATIO_MAX,
    {
        Rgba { r: 0, g: 0, b: 0, a: RATIO_MAX }
    }

    fn from_tuple(tuple: ColorTupleA) -> (c: Rgba)
        ensures
            c.red() == spec_normalize(ChannelKind::ColorComponent, tuple.0 as int),
            c.green() == spec_normalize(ChannelKind::ColorComponent, tuple.1 as int),
            c.blue() == spec_normalize(ChannelKind::ColorComponent, tuple.2 as int),
            c.alpha_millis() == spec_normalize(ChannelKind::Ratio, tuple.3 as int),
    {
        Rgba::from(tuple.0, tuple.1, tuple.2, tuple.3)
    }

    fn as_tuple(&self) -> (t: ColorTupleA)
        ensures
            t.0 as int == self.red() && t.1 as int == self.green() && t.2 as int == self.blue(),
            t.3 as int == self.alpha_millis(),
            0 <= t.0 <= RGB_UNIT_MAX && 0 <= t.1 <= RGB_UNIT_MAX && 0 <= t.2 <= RGB_UNIT_MAX,
    {
        proof {
            use_type_invariant(self);
        }
        (self.r, self.g, self.b, self.a)
    }

    fn get_red(&self) -> (r: i64)
        ensures
            r as int == self.red(),
    {
        proof {
            use_type_invariant(self);
        }
        self.r
    }

    fn get_green(&self) -> (r: i64)
        ensures
            r as int == self.green(),
    {
        proof {
            use_type_invariant(self);
        }
        self.g
    }

    fn get_blue(&self) -> (r: i64)
        ensures
            r as int == self.blue(),
    {
        proof {
            use_type_invariant(self);
        }
        self.b
    }

    fn set_red(&self, val: i64) -> (c: Rgba)
        ensures
            c.red() == spec_normalize(ChannelKind::ColorComponent, val as int),
            c.green() == self.green() && c.blue() == self.blue(),
            c.alpha_millis() == self.alpha_millis(),
    {
        proof {
            use_type_invariant(self);
        }
        Rgba { r: normalize(ChannelKind::ColorComponent, val), g: self.g, b: self.b, a: self.a }
    }

    fn set_green(&self, val: i64) -> (c: Rgba)
        ensures
            c.green() == spec_normalize(ChannelKind::ColorComponent, val as int),
            c.red() == self.red() && c.blue() == self.blue(),
            c.alpha_millis() == self.alpha_millis(),
    {
        proof {
            use_type_invariant(self);
        }
        Rgba { r: self.r, g: normalize(ChannelKind::ColorComponent, val), b: self.b, a: self.a }
    }

    fn set_blue(&self, val: i64) -> (c: Rgba)
        ensures
            c.blue() == spec_normalize(ChannelKind::ColorComponent, val as int),
            c.red() == self.red() && c.green() == self.green(),
            c.alpha_millis() == self.alpha_millis(),
    {
        proof {
            use_type_invariant(self);
        }
        Rgba { r: self.r, g: self.g, b: normalize(ChannelKind::ColorComponent, val), a: self.a }
    }

    fn get_hue(&self) -> (r: i64)
        ensures
            r as int == self.hsl_channels().0,
    {
        proof {
            use_type_invariant(self);
        }
        let (h, _s, _l) = rgb_to_hsl((self.r, self.g, self.b));
        h
    }

    fn get_saturation(&self) -> (r: i64)
        ensures
            r as int == self.hsl_channels().1,
    {
        proof {
            use_type_invariant(self);
        }
        let (_h, s, _l) = rgb_to_hsl((self.r, self.g, self.b));
        s
    }

    fn get_lightness(&self) -> (r: i64)
        ensures
            r as int == self.hsl_channels().2,
    {
        proof {
            use_type_invariant(self);
        }
        let (_h, _s, l) = rgb_to_hsl((self.r, self.g, self.b));
        l
    }

    fn set_hue(&self, val: i64) -> (c: Rgba)
        ensures
            (c.red(), c.green(), c.blue()) == spec_hsl_to_rgb(
                spec_normalize(ChannelKind::Hue, val as int),
                self.hsl_channels().1,
                self.hsl_channels().2,
            ),
            c.alpha_millis() == self.alpha_millis(),
    {
        proof {
            use_type_invariant(self);
        }
        let (_h, s, l) = rgb_to_hsl((self.r, self.g, self.b));
        let (r, g, b) = hsl_to_rgb((normalize(ChannelKind::Hue, val), s, l));
        Rgba { r, g, b, a: self.a }
    }

    fn set_saturation(&self, val: i64) -> (c: Rgba)
        ensures
            (c.red(), c.green(), c.blue()) == spec_hsl_to_rgb(
                self.hsl_channels().0,
                spec_normalize(ChannelKind::Percent, val as int),
                self.hsl_channels().2,
            ),
            c.alpha_millis() == self.alpha_millis(),
    {
        proof {
            use_type_invariant(self);
        }
        let (h, _s, l) = rgb_to_hsl((self.r, self.g, self.b));
        let (r, g, b) = hsl_to_rgb((h, normalize(ChannelKind::Percent, val), l));
        Rgba { r, g, b, a: self.a }
    }

    fn set_lightness(&self, val: i64) -> (c: Rgba)
        ensures
            (c.red(), c.green(), c.blue()) == spec_hsl_to_rgb(
                self.hsl_channels().0,
                self.hsl_channels().1,
                spec_normalize(ChannelKind::Percent, val as int),
            ),
            c.alpha_millis() == self.alpha_millis(),
    {
        proof {
            use_type_invariant(self);
        }
        let (h, s, _l) = rgb_to_hsl((self.r, self.g, self.b));
        let (r, g, b) = hsl_to_rgb((h, s, normalize(ChannelKind::Percent, val)));
        Rgba { r, g, b, a: self.a }
    }

    fn to_rgb(&self) -> (c: Rgb)
        ensures
            c.red() == self.red() && c.green() == self.green() && c.blue() == self.blue(),
    {
        proof {
            use_type_invariant(self);
        }
        Rgb { r: self.r, g: self.g, b: self.b }
    }

    fn to_rgba(&self) -> (c: Rgba)
        ensures
            c.red() == self.red() && c.green() == self.green() && c.blue() == self.blue(),
            c.alpha_millis() == self.alpha_millis(),
    {
        proof {
            use_type_invariant(self);
        }
        *self
    }

    fn to_hsl(&self) -> (c: Hsl)
        ensures
            (c.hue(), c.sat(), c.light()) == self.hsl_channels(),
            !c.has_alpha(),
    {
        proof {
            use_type_invariant(self);
        }
        let (h, s, l) = rgb_to_hsl((self.r, self.g, self.b));
        Hsl { h, s, l, a: None }
    }

    fn to_hsla(&self) -> (c: Hsla)
        ensures
            (c.hue(), c.sat(), c.light()) == self.hsl_channels(),
            c.alpha_millis() == self.alpha_millis(),
    {
        proof {
            use_type_invariant(self);
        }
        let (h, s, l) = rgb_to_hsl((self.r, self.g, self.b));
        Hsla { h, s, l, a: self.a }
    }

    fn to_css_string(&self) -> (out: String)
        ensures
            out@ == spec_css_rgba(self.red(), self.green(), self.blue(), self.alpha_millis()),
    {
        proof {
            use_type_invariant(self);
        }
        let mut out = String::from_str("rgba(");
        out.append(uint_string(round_units(self.r)).as_str());
        out.append(",");
        out.append(uint_string(round_units(self.g)).as_str());
        out.append(",");
        out.append(uint_string(round_units(self.b)).as_str());
        out.append(",");
        out.append(alpha_string(self.a).as_str());
        out.append(")");
        out
    }

    fn adjust_hue(&self, amt: i64) -> (c: Rgba)
        ensures
            (c.red(), c.green(), c.blue()) == spec_hsl_to_rgb(
                spec_normalize(ChannelKind::Hue, self.hsl_channels().0 + amt),
                self.hsl_channels().1,
                self.hsl_channels().2,
            ),
            c.alpha_millis() == self.alpha_millis(),
    {
        proof {
            use_type_invariant(self);
        }
        let (h, s, l) = rgb_to_hsl((self.r, self.g, self.b));
        let (r, g, b) = hsl_to_rgb((adjust(ChannelKind::Hue, h, amt), s, l));
        Rgba { r, g, b, a: self.a }
    }

    fn saturate(&self, amt: i64) -> (c: Rgba)
        ensures
            (c.red(), c.green(), c.blue()) == spec_hsl_to_rgb(
                self.hsl_channels().0,
                spec_normalize(ChannelKind::Percent, self.hsl_channels().1 + amt),
                self.hsl_channels().2,
            ),
            c.alpha_millis() == self.alpha_millis(),
    {
        proof {
            use_type_invariant(self);
        }
        let (h, s, l) = rgb_to_hsl((self.r, self.g, self.b));
        let (r, g, b) = hsl_to_rgb((h, adjust(ChannelKind::Percent, s, amt), l));
        Rgba { r, g, b, a: self.a }
    }

    fn lighten(&self, amt: i64) -> (c: Rgba)
        ensures
            (c.red(), c.green(), c.blue()) == spec_hsl_to_rgb(
                self.hsl_channels().0,
                self.hsl_channels().1,
                spec_normalize(ChannelKind::Percent, self.hsl_channels().2 + amt),
            ),
            c.alpha_millis() == self.alpha_millis(),
    {
        proof {
            use_type_invariant(self);
        }
        let (h, s, l) = rgb_to_hsl((self.r, self.g, self.b));
        let (r, g, b) = hsl_to_rgb((h, s, adjust(ChannelKind::Percent, l, amt)));
        Rgba { r, g, b, a: self.a }
    }

    fn adjust_color(&self, col_name: RgbColor, val: i64) -> (c: Rgba)
        ensures
            match col_name {
                RgbColor::Red => c.red() == spec_normalize(
                    ChannelKind::ColorComponent,
                    self.red() + val,
                ) && c.green() == self.green() && c.blue() == self.blue(),
                RgbColor::Green => c.green() == spec_normalize(
                    ChannelKind::ColorComponent,
                    self.green() + val,
                ) && c.red() == self.red() && c.blue() == self.blue(),
                RgbColor::Blue => c.blue() == spec_normalize(
                    ChannelKind::ColorComponent,
                    self.blue() + val,
                ) && c.red() == self.red() && c.green() == self.green(),
            },
            c.alpha_millis() == self.alpha_millis(),
    {
        proof {
            use_type_invariant(self);
        }
        match col_name {
            RgbColor::Red => Rgba {
                r: adjust(ChannelKind::ColorComponent, self.r, val),
                g: self.g,
                b: self.b,
                a: self.a,
            },
            RgbColor::Green => Rgba {
                r: self.r,
                g: adjust(ChannelKind::ColorComponent, self.g, val),
                b: self.b,
                a: self.a,
            },
            RgbColor::Blue => Rgba {
                r: self.r,
                g: self.g,
                b: adjust(ChannelKind::ColorComponent, self.b, val),
                a: self.a,
            },
        }
    }
}

impl AlphaColor for Rgba {
    fn get_alpha(&self) -> (r: i64)
        ensures
            r as int == self.alpha_millis(),
            0 <= r <= RATIO_MAX,
    {
        proof {
            use_type_invariant(self);
        }
        self.a
    }

    fn set_alpha(&self, a: i64) -> (c: Rgba)
        ensures
            c.alpha_millis() == spec_normalize(ChannelKind::Ratio, a as int),
            c.red() == self.red() && c.green() == self.green() && c.blue() == self.blue(),
    {
        proof {
            use_type_invariant(self);
        }
        Rgba { r: self.r, g: self.g, b: self.b, a: normalize(ChannelKind::Ratio, a) }
    }

    fn opacify(&self, o: i64) -> (c: Rgba)
        ensures
            c.alpha_millis() == spec_normalize(ChannelKind::Ratio, self.alpha_millis() + o),
            c.red() == self.red() && c.green() == self.green() && c.blue() == self.blue(),
    {
        proof {
            use_type_invariant(self);
        }
        Rgba { r: self.r, g: self.g, b: self.b, a: adjust(ChannelKind::Ratio, self.a, o) }
    }
}

impl Color for Hsla {
    type Tuple = ColorTupleA;

    fn new() -> (c: Hsla)
        ensures
            c.hue() == 0 && c.sat() == 0 && c.light() == 0,
            c.alpha_millis() == RATIO_MAX,
    {
        Hsla { h: 0, s: 0, l: 0, a: RATIO_MAX }
    }

    fn from_tuple(tuple: ColorTupleA) -> (c: Hsla)
        ensures
            c.hue() == spec_normalize(ChannelKind::Hue, tuple.0 as int),
            c.sat() == spec_normalize(ChannelKind::Percent, tuple.1 as int),
            c.light() == spec_normalize(ChannelKind::Percent, tuple.2 as int),
            c.alpha_millis() == spec_normalize(ChannelKind::Ratio, tuple.3 as int),
    {
        Hsla::from(tuple.0, tuple.1, tuple.2, tuple.3)
    }

    fn as_tuple(&self) -> (t: ColorTupleA)
        ensures
            t.0 as int == self.hue() && t.1 as int == self.sat() && t.2 as int == self.light(),
            t.3 as int == self.alpha_millis(),
            0 <= t.0 <= HUE_MAX && 0 <= t.1 <= PERCENT_MAX && 0 <= t.2 <= PERCENT_MAX,
    {
        proof {
            use_type_invariant(self);
        }
        (self.h, self.s, self.l, self.a)
    }

    fn get_red(&self) -> (r: i64)
        ensures
            r as int == self.rgb_channels().0,
    {
        proof {
            use_type_invariant(self);
        }
        let (r, _g, _b) = hsl_to_rgb((self.h, self.s, self.l));
        r
    }

    fn get_green(&self) -> (r: i64)
        ensures
            r as int == self.rgb_channels().1,
    {
        proof {
            use_type_invariant(self);
        }
        let (_r, g, _b) = hsl_to_rgb((self.h, self.s, self.l));
        g
    }

    fn get_blue(&self) -> (r: i64)
        ensures
            r as int == self.rgb_channels().2,
    {
        proof {
            use_type_invariant(self);
        }
        let (_r, _g, b) = hsl_to_rgb((self.h, self.s, self.l));
        b
    }

    fn set_red(&self, val: i64) -> (c: Hsla)
        ensures
            (c.hue(), c.sat(), c.light()) == spec_rgb_to_hsl(
                spec_normalize(ChannelKind::ColorComponent, val as int),
                self.rgb_channels().1,
                self.rgb_channels().2,
            ),
            c.alpha_millis() == self.alpha_millis(),
    {
        proof {
            use_type_invariant(self);
        }
        let (_r, g, b) = hsl_to_rgb((self.h, self.s, self.l));
        let (h, s, l) = rgb_to_hsl((normalize(ChannelKind::ColorComponent, val), g, b));
        Hsla { h, s, l, a: self.a }
    }

    fn set_green(&self, val: i64) -> (c: Hsla)
        ensures
            (c.hue(), c.sat(), c.light()) == spec_rgb_to_hsl(
                self.rgb_channels().0,
                spec_normalize(ChannelKind::ColorComponent, val as int),
                self.rgb_channels().2,
            ),
            c.alpha_millis() == self.alpha_millis(),
    {
        proof {
            use_type_invariant(self);
        }
        let (r, _g, b) = hsl_to_rgb((self.h, self.s, self.l));
        let (h, s, l) = rgb_to_hsl((r, normalize(ChannelKind::ColorComponent, val), b));
        Hsla { h, s, l, a: self.a }
    }

    fn set_blue(&self, val: i64) -> (c: Hsla)
        ensures
            (c.hue(), c.sat(), c.light()) == spec_rgb_to_hsl(
                self.rgb_channels().0,
                self.rgb_channels().1,
                spec_normalize(ChannelKind::ColorComponent, val as int),
            ),
            c.alpha_millis() == self.alpha_millis(),
    {
        proof {
            use_type_invariant(self);
        }
        let (r, g, _b) = hsl_to_rgb((self.h, self.s, self.l));
        let (h, s, l) = rgb_to_hsl((r, g, normalize(ChannelKind::ColorComponent, val)));
        Hsla { h, s, l, a: self.a }
    }

    fn get_hue(&self) -> (r: i64)
        ensures
            r as int == self.hue(),
    {
        proof {
            use_type_invariant(self);
        }
        self.h
    }

    fn get_saturation(&self) -> (r: i64)
        ensures
            r as int == self.sat(),
    {
        proof {
            use_type_invariant(self);
        }
        self.s
    }

    fn get_lightness(&self) -> (r: i64)
        ensures
            r as int == self.light(),
    {
        proof {
            use_type_invariant(self);
        }
        self.l
    }

    fn set_hue(&self, val: i64) -> (c: Hsla)
        ensures
            c.hue() == spec_normalize(ChannelKind::Hue, val as int),
            c.sat() == self.sat() && c.light() == self.light(),
            c.alpha_millis() == self.alpha_millis(),
    {
        proof {
            use_type_invariant(self);
        }
        Hsla { h: normalize(ChannelKind::Hue, val), s: self.s, l: self.l, a: self.a }
    }

    fn set_saturation(&self, val: i64) -> (c: Hsla)
        ensures
            c.sat() == spec_normalize(ChannelKind::Percent, val as int),
            c.hue() == self.hue() && c.light() == self.light(),
            c.alpha_millis() == self.alpha_millis(),
    {
        proof {
            use_type_invariant(self);
        }
        Hsla { h: self.h, s: normalize(ChannelKind::Percent, val), l: self.l, a: self.a }
    }

    fn set_lightness(&self, val: i64) -> (c: Hsla)
        ensures
            c.light() == spec_normalize(ChannelKind::Percent, val as int),
            c.hue() == self.hue() && c.sat() == self.sat(),
            c.alpha_millis() == self.alpha_millis(),
    {
        proof {
            use_type_invariant(self);
        }
        Hsla { h: self.h, s: self.s, l: normalize(ChannelKind::Percent, val), a: self.a }
    }

    fn to_rgb(&self) -> (c: Rgb)
        ensures
            (c.red(), c.green(), c.blue()) == self.rgb_channels(),
    {
        proof {
            use_type_invariant(self);
        }
        let (r, g, b) = hsl_to_rgb((self.h, self.s, self.l));
        Rgb { r, g, b }
    }

    fn to_rgba(&self) -> (c: Rgba)
        ensures
            (c.red(), c.green(), c.blue()) == self.rgb_channels(),
            c.alpha_millis() == self.alpha_millis(),
    {
        proof {
            use_type_invariant(self);
        }
        let (r, g, b) = hsl_to_rgb((self.h, self.s, self.l));
        Rgba { r, g, b, a: self.a }
    }

    fn to_hsl(&self) -> (c: Hsl)
        ensures
            c.hue() == self.hue() && c.sat() == self.sat() && c.light() == self.light(),
            !c.has_alpha(),
    {
        proof {
            use_type_invariant(self);
        }
        Hsl { h: self.h, s: self.s, l: self.l, a: None }
    }

    fn to_hsla(&self) -> (c: Hsla)
        ensures
            c.hue() == self.hue() && c.sat() == self.sat() && c.light() == self.light(),
            c.alpha_millis() == self.alpha_millis(),
    {
        proof {
            use_type_invariant(self);
        }
        *self
    }

    fn to_css_string(&self) -> (out: String)
        ensures
            out@ == spec_css_hsla(self.hue(), self.sat(), self.light(), self.alpha_millis()),
    {
        proof {
            use_type_invariant(self);
        }
        let mut out = String::from_str("hsla(");
        out.append(uint_string(round_units(self.h)).as_str());
        out.append(",");
        out.append(uint_string(round_units(self.s)).as_str());
        out.append("%,");
        out.append(uint_string(round_units(self.l)).as_str());
        out.append("%,");
        out.append(alpha_string(self.a).as_str());
        out.append(")");
        out
    }

    fn adjust_hue(&self, amt: i64) -> (c: Hsla)
        ensures
            c.hue() == spec_normalize(ChannelKind::Hue, self.hue() + amt),
            c.sat() == self.sat() && c.light() == self.light(),
            c.alpha_millis() == self.alpha_millis(),
    {
        proof {
            use_type_invariant(self);
        }
        Hsla { h: adjust(ChannelKind::Hue, self.h, amt), s: self.s, l: self.l, a: self.a }
    }

    fn saturate(&self, amt: i64) -> (c: Hsla)
        ensures
            c.sat() == spec_normalize(ChannelKind::Percent, self.sat() + amt),
            c.hue() == self.hue() && c.light() == self.light(),
            c.alpha_millis() == self.alpha_millis(),
    {
        proof {
            use_type_invariant(self);
        }
        Hsla { h: self.h, s: adjust(ChannelKind::Percent, self.s, amt), l: self.l, a: self.a }
    }

    fn lighten(&self, amt: i64) -> (c: Hsla)
        ensures
            c.light() == spec_normalize(ChannelKind::Percent, self.light() + amt),
            c.hue() == self.hue() && c.sat() == self.sat(),
            c.alpha_millis() == self.alpha_millis(),
    {
        proof {
            use_type_invariant(self);
        }
        Hsla { h: self.h, s: self.s, l: adjust(ChannelKind::Percent, self.l, amt), a: self.a }
    }

    fn adjust_color(&self, col_name: RgbColor, val: i64) -> (c: Hsla)
        ensures
            ({
                let (r0, g0, b0) = self.rgb_channels();
                (c.hue(), c.sat(), c.light()) == match col_name {
                    RgbColor::Red => spec_rgb_to_hsl(
                        spec_normalize(ChannelKind::ColorComponent, r0 + val),
                        g0,
                        b0,
                    ),
                    RgbColor::Green => spec_rgb_to_hsl(
                        r0,
                        spec_normalize(ChannelKind::ColorComponent, g0 + val),
                        b0,
                    ),
                    RgbColor::Blue => spec_rgb_to_hsl(
                        r0,
                        g0,
                        spec_normalize(ChannelKind::ColorComponent, b0 + val),
                    ),
                }
            }),
            c.alpha_millis() == self.alpha_millis(),
    {
        proof {
            use_type_invariant(self);
        }
        let (r, g, b) = hsl_to_rgb((self.h, self.s, self.l));
        let adjusted = match col_name {
            RgbColor::Red => (adjust(ChannelKind::ColorComponent, r, val), g, b),
            RgbColor::Green => (r, adjust(ChannelKind::ColorComponent, g, val), b),
            RgbColor::Blue => (r, g, adjust(ChannelKind::ColorComponent, b, val)),
        };
        let (h, s, l) = rgb_to_hsl(adjusted);
        Hsla { h, s, l, a: self.a }
    }
}

impl AlphaColor for Hsla {
    fn get_alpha(&self) -> (r: i64)
        ensures
            r as int == self.alpha_millis(),
            0 <= r <= RATIO_MAX,
    {
        proof {
            use_type_invariant(self);
        }
        self.a
    }

    fn set_alpha(&self, a: i64) -> (c: Hsla)
        ensures
            c.alpha_millis() == spec_normalize(ChannelKind::Ratio, a as int),
            c.hue() == self.hue() && c.sat() == self.sat() && c.light() == self.light(),
    {
        proof {
            use_type_invariant(self);
        }
        Hsla { h: self.h, s: self.s, l: self.l, a: normalize(ChannelKind::Ratio, a) }
    }

    fn opacify(&self, o: i64) -> (c: Hsla)
        ensures
            c.alpha_millis() == spec_normalize(ChannelKind::Ratio, self.alpha_millis() + o),
            c.hue() == self.hue() && c.sat() == self.sat() && c.light() == self.light(),
    {
        proof {
            use_type_invariant(self);
        }
        Hsla { h: self.h, s: self.s, l: self.l, a: adjust(ChannelKind::Ratio, self.a, o) }
    }
}

} // verus!
