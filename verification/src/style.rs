//! The computed-style record the layout algorithm reads.
//!
//! Producing these values (parsing, cascade) is the job of an outside
//! collaborator; layout only consumes them.  The record exposes exactly
//! what the block-flow algorithm needs: the display mode, width and
//! height, and the four margin, border and padding components, each as a
//! length-or-auto or percentage resolvable against a containing width.

use vstd::prelude::*;
use crate::length::{LengthPercentage, LengthPercentageOrAuto};

verus! {

/// The display modes this engine lays out.
#[derive(Clone, Copy, Debug, PartialEq, Eq, Structural)]
pub enum Display {
    Block,
    Inline,
    /// `display: none`: the node generates no box at all.
    DisplayNone,
}

/// Computed values for one document node.
#[derive(Clone, Copy, Debug, PartialEq, Eq, Structural)]
pub struct ComputedStyle {
    pub display: Display,
    pub width: LengthPercentageOrAuto,
    pub height: LengthPercentageOrAuto,
    pub margin_left: LengthPercentageOrAuto,
    pub margin_right: LengthPercentageOrAuto,
    pub margin_top: LengthPercentageOrAuto,
    pub margin_bottom: LengthPercentageOrAuto,
    pub border_left_width: i64,
    pub border_right_width: i64,
    pub border_top_width: i64,
    pub border_bottom_width: i64,
    pub padding_left: LengthPercentage,
    pub padding_right: LengthPercentage,
    pub padding_top: LengthPercentage,
    pub padding_bottom: LengthPercentage,
}

impl Default for ComputedStyle {
    /// The initial values: `display: inline`, auto width and height, and
    /// zero margins, borders and padding.
    fn default() -> (r: ComputedStyle)
        ensures
            r == ComputedStyle::spec_initial(),
    {
        ComputedStyle {
            display: Display::Inline,
            width: LengthPercentageOrAuto::Auto,
            height: LengthPercentageOrAuto::Auto,
            margin_left: LengthPercentageOrAuto::LengthPercentage(LengthPercentage::Length(0)),
            margin_right: LengthPercentageOrAuto::LengthPercentage(LengthPercentage::Length(0)),
            margin_top: LengthPercentageOrAuto::LengthPercentage(LengthPercentage::Length(0)),
            margin_bottom: LengthPercentageOrAuto::LengthPercentage(LengthPercentage::Length(0)),
            border_left_width: 0,
            border_right_width: 0,
            border_top_width: 0,
            border_bottom_width: 0,
            padding_left: LengthPercentage::Length(0),
            padding_right: LengthPercentage::Length(0),
            padding_top: LengthPercentage::Length(0),
            padding_bottom: LengthPercentage::Length(0),
        }
    }
}

impl ComputedStyle {
    /// The initial computed values, as `Default::default` returns them.
    pub open spec fn spec_initial() -> ComputedStyle {
        ComputedStyle {
            display: Display::Inline,
            width: LengthPercentageOrAuto::Auto,
            height: LengthPercentageOrAuto::Auto,
            margin_left: LengthPercentageOrAuto::LengthPercentage(LengthPercentage::Length(0)),
            margin_right: LengthPercentageOrAuto::LengthPercentage(LengthPercentage::Length(0)),
            margin_top: LengthPercentageOrAuto::LengthPercentage(LengthPercentage::Length(0)),
            margin_bottom: LengthPercentageOrAuto::LengthPercentage(LengthPercentage::Length(0)),
            border_left_width: 0,
            border_right_width: 0,
            border_top_width: 0,
            border_bottom_width: 0,
            padding_left: LengthPercentage::Length(0),
            padding_right: LengthPercentage::Length(0),
            padding_top: LengthPercentage::Length(0),
            padding_bottom: LengthPercentage::Length(0),
        }
    }
}

} // verus!
