//! The four nested rectangles of the box model: content, padding, border
//! and margin.

use vstd::prelude::*;
use crate::rect::{EdgeSizes, Rect};

verus! {

/// The geometry of one laid-out box: the content rectangle plus the three
/// edge sets that surround it.
#[derive(Clone, Copy, Debug, PartialEq, Eq, Structural)]
pub struct Dimensions {
    pub content: Rect,
    pub padding: EdgeSizes,
    pub border: EdgeSizes,
    pub margin: EdgeSizes,
}

impl Dimensions {
    /// Dimensions with every field zero.
    pub open spec fn spec_zero() -> Dimensions {
        Dimensions {
            content: Rect::spec_zero(),
            padding: EdgeSizes::spec_zero(),
            border: EdgeSizes::spec_zero(),
            margin: EdgeSizes::spec_zero(),
        }
    }

    /// The content rectangle expanded by the padding.
    pub open spec fn spec_padding_box(self) -> Rect {
        self.content.spec_expanded_by_edges(self.padding)
    }

    pub fn padding_box(&self) -> (r: Rect)
        ensures
            r == self.spec_padding_box(),
    {
        self.content.expanded_by_edges(self.padding)
    }

    /// The padding box expanded by the border.
    pub open spec fn spec_border_box(self) -> Rect {
        self.spec_padding_box().spec_expanded_by_edges(self.border)
    }

    pub fn border_box(&self) -> (r: Rect)
        ensures
            r == self.spec_border_box(),
    {
        self.padding_box().expanded_by_edges(self.border)
    }

    /// The border box expanded by the margin: the full extent one box
    /// occupies in its parent's flow.
    pub open spec fn spec_margin_box(self) -> Rect {
        self.spec_border_box().spec_expanded_by_edges(self.margin)
    }

    pub fn margin_box(&self) -> (r: Rect)
        ensures
            r == self.spec_margin_box(),
    {
        self.border_box().expanded_by_edges(self.margin)
    }
}

impl Default for Dimensions {
    /// Dimensions with every field zero, the state of a box before layout.
    fn default() -> (r: Dimensions)
        ensures
            r == Dimensions::spec_zero(),
    {
        Dimensions {
            content: Rect { start_x: 0, start_y: 0, width: 0, height: 0 },
            padding: EdgeSizes { left: 0, right: 0, top: 0, bottom: 0 },
            border: EdgeSizes { left: 0, right: 0, top: 0, bottom: 0 },
            margin: EdgeSizes { left: 0, right: 0, top: 0, bottom: 0 },
        }
    }
}

} // verus!
