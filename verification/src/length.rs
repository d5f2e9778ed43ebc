//! CSS pixel lengths and the computed-value length types.
//!
//! Lengths are whole CSS pixels, held as `i64`.  All pixel arithmetic
//! saturates at the limits of `i64`; that policy replaces the unbounded
//! growth a floating-point representation would allow, and it keeps every
//! layout computation total.  Percentages are whole percent values and
//! resolve against a containing width clamped to zero from below, with the
//! quotient truncated toward zero; negative containing widths cannot arise
//! from well-formed styles, so the clamp only makes resolution total.

use vstd::prelude::*;

verus! {

/// The saturation function for pixel arithmetic: clamp an unbounded
/// integer into the range of `i64`.
pub open spec fn sat64(x: int) -> int {
    if x > i64::MAX {
        i64::MAX as int
    } else if x < i64::MIN {
        i64::MIN as int
    } else {
        x
    }
}

/// A negative containing width resolves percentages as a zero width would.
pub open spec fn clamp_nonneg(x: int) -> int {
    if x < 0 {
        0
    } else {
        x
    }
}

/// Clamp a wide intermediate result back into pixel range.
pub fn clamp_px(wide: i128) -> (r: i64)
    ensures
        r == sat64(wide as int),
{
    if wide > i64::MAX as i128 {
        i64::MAX
    } else if wide < i64::MIN as i128 {
        i64::MIN
    } else {
        wide as i64
    }
}

/// Saturating addition of two pixel values.
pub fn px_add(a: i64, b: i64) -> (r: i64)
    ensures
        r == sat64(a + b),
{
    clamp_px(a as i128 + b as i128)
}

/// Saturating multiplication of two pixel values.
pub fn px_mul(a: i64, b: i64) -> (r: i64)
    ensures
        r == sat64(a * b),
{
    proof {
        assert(i128::MIN <= a * b <= i128::MAX) by (nonlinear_arith)
            requires
                i64::MIN <= a <= i64::MAX,
                i64::MIN <= b <= i64::MAX,
        ;
    }
    clamp_px(a as i128 * b as i128)
}

/// A specified length or percentage, before it is resolved into used pixels.
#[derive(Clone, Copy, Debug, PartialEq, Eq, Structural)]
pub enum LengthPercentage {
    /// An absolute length in CSS pixels.
    Length(i64),
    /// A whole percentage of the containing block's content width.
    Percentage(u32),
}

/// A specified length, percentage, or the keyword `auto`.
#[derive(Clone, Copy, Debug, PartialEq, Eq, Structural)]
pub enum LengthPercentageOrAuto {
    Auto,
    LengthPercentage(LengthPercentage),
}

impl LengthPercentage {
    /// The used pixel value of this length or percentage against a
    /// containing width of `cw` pixels.
    pub open spec fn resolved(self, cw: int) -> int {
        match self {
            LengthPercentage::Length(px) => px as int,
            LengthPercentage::Percentage(p) => sat64((p * clamp_nonneg(cw)) / 100),
        }
    }

    /// Construct an absolute pixel length.
    pub fn new_len(px: i64) -> (r: Self)
        ensures
            r == LengthPercentage::Length(px),
    {
        LengthPercentage::Length(px)
    }

    /// Resolve this value into used pixels against a containing width.
    pub fn to_px(&self, containing_width: i64) -> (r: i64)
        ensures
            r == self.resolved(containing_width as int),
    {
        match *self {
            LengthPercentage::Length(px) => px,
            LengthPercentage::Percentage(p) => {
                let cw: u128 = if containing_width < 0 {
                    0
                } else {
                    containing_width as u128
                };
                proof {
                    assert((p as int) * (cw as int) <= u128::MAX) by (nonlinear_arith)
                        requires
                            0 <= p <= u32::MAX,
                            0 <= cw <= i64::MAX,
                    ;
                }
                let scaled: u128 = (p as u128) * cw / 100;
                if scaled > i64::MAX as u128 {
                    i64::MAX
                } else {
                    scaled as i64
                }
            },
        }
    }
}

impl LengthPercentageOrAuto {
    /// Whether this computed value is the keyword `auto`.
    pub open spec fn spec_is_auto(&self) -> bool {
        self is Auto
    }

    #[verifier::when_used_as_spec(spec_is_auto)]
    pub fn is_auto(&self) -> (r: bool)
        ensures
            r == self.spec_is_auto(),
    {
        matches!(*self, LengthPercentageOrAuto::Auto)
    }

    /// The used pixel value, with `auto` treated as zero.
    pub open spec fn resolved(self, cw: int) -> int {
        match self {
            LengthPercentageOrAuto::Auto => 0,
            LengthPercentageOrAuto::LengthPercentage(lp) => lp.resolved(cw),
        }
    }

    /// Construct an absolute pixel length.
    pub fn new_len(px: i64) -> (r: Self)
        ensures
            r == LengthPercentageOrAuto::LengthPercentage(LengthPercentage::Length(px)),
    {
        LengthPercentageOrAuto::LengthPercentage(LengthPercentage::Length(px))
    }

    /// Resolve this value into used pixels against a containing width,
    /// treating `auto` as zero.
    pub fn to_px(&self, containing_width: i64) -> (r: i64)
        ensures
            r == self.resolved(containing_width as int),
    {
        match self {
            LengthPercentageOrAuto::Auto => 0,
            LengthPercentageOrAuto::LengthPercentage(lp) => lp.to_px(containing_width),
        }
    }
}

} // verus!
