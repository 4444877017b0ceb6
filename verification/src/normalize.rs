//! Clamping normalization of raw channel values.
//!
//! Normalization is total: it never rejects an input, it pins an
//! out-of-range value to the nearest bound of the channel's range.

use vstd::prelude::*;

verus! {

/// Lower bound of every channel range, in thousandths.
pub const ALL_MIN: i64 = 0;

/// Upper bound of the hue range, in thousandths (360 degrees).
pub const HUE_MAX: i64 = 360_000;

/// Upper bound of the percent range, in thousandths (100 percent).
pub const PERCENT_MAX: i64 = 100_000;

/// Upper bound of the alpha ratio range, in thousandths (a ratio of 1).
pub const RATIO_MAX: i64 = 1_000;

/// Upper bound of a red/green/blue component, in thousandths (255).
pub const RGB_UNIT_MAX: i64 = 255_000;

/// The kind of channel a raw value is normalized for; each kind has its
/// own valid range.
#[derive(Clone, Copy)]
pub enum ChannelKind {
    Hue,
    Percent,
    Ratio,
    ColorComponent,
}

/// Upper bound (in thousandths) of the range of a channel kind.
pub open spec fn kind_max(kind: ChannelKind) -> int {
    match kind {
        ChannelKind::Hue => HUE_MAX as int,
        ChannelKind::Percent => PERCENT_MAX as int,
        ChannelKind::Ratio => RATIO_MAX as int,
        ChannelKind::ColorComponent => RGB_UNIT_MAX as int,
    }
}

/// A value clamped into the closed range `[lo, hi]`.
pub open spec fn spec_clamp(x: int, lo: int, hi: int) -> int {
    if x < lo {
        lo
    } else if x > hi {
        hi
    } else {
        x
    }
}

/// A raw value clamped into the valid range of `kind`.
pub open spec fn spec_normalize(kind: ChannelKind, x: int) -> int {
    spec_clamp(x, 0, kind_max(kind))
}

/// Clamps `raw` into the valid range for `kind`: values below the range
/// become the lower bound, values above it the upper bound.
pub fn normalize(kind: ChannelKind, raw: i64) -> (r: i64)
    ensures
        r == spec_normalize(kind, raw as int),
        0 <= r <= kind_max(kind),
{
    let max = match kind {
        ChannelKind::Hue => HUE_MAX,
        ChannelKind::Percent => PERCENT_MAX,
        ChannelKind::Ratio => RATIO_MAX,
        ChannelKind::ColorComponent => RGB_UNIT_MAX,
    };
    if raw < ALL_MIN {
        ALL_MIN
    } else if raw > max {
        max
    } else {
        raw
    }
}

/// Adds a signed delta to a nonnegative channel value and renormalizes:
/// the result is the clamp of the mathematical sum, also where the sum
/// does not fit the machine integer.
pub fn adjust(kind: ChannelKind, cur: i64, amt: i64) -> (r: i64)
    requires
        0 <= cur,
    ensures
        r == spec_normalize(kind, cur as int + amt as int),
{
    match cur.checked_add(amt) {
        Some(v) => normalize(kind, v),
        None => {
            // `cur` is nonnegative, so the only failing sum is above the
            // machine maximum, far beyond every channel bound
            normalize(kind, i64::MAX)
        },
    }
}

/// Law: normalization always lands in the channel's valid range.
pub proof fn lemma_normalize_in_range(kind: ChannelKind, x: int)
    ensures
        0 <= spec_normalize(kind, x) <= kind_max(kind),
{
}

/// Law: normalization clamps to the nearest bound and never wraps
/// around: anything below the range becomes the minimum, anything above
/// it the maximum, and an in-range value is kept as it is.
pub proof fn lemma_normalize_clamps(kind: ChannelKind, x: int)
    ensures
        x < 0 ==> spec_normalize(kind, x) == 0,
        x > kind_max(kind) ==> spec_normalize(kind, x) == kind_max(kind),
        0 <= x <= kind_max(kind) ==> spec_normalize(kind, x) == x,
{
}

/// Law: normalization is idempotent; a value already normalized is kept.
pub proof fn lemma_normalize_idempotent(kind: ChannelKind, x: int)
    ensures
        spec_normalize(kind, spec_normalize(kind, x)) == spec_normalize(kind, x),
{
}

} // verus!
