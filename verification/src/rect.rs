//! Rectangles and edge sets: the geometry algebra every box computation
//! builds on.

use vstd::prelude::*;
use crate::length::{sat64, clamp_px, px_mul};

verus! {

/// An axis-aligned rectangle in CSS pixels.
#[derive(Clone, Copy, Debug, PartialEq, Eq, Structural)]
pub struct Rect {
    /// The exact point where the rectangle begins on the x-axis.
    pub start_x: i64,
    /// The exact point where the rectangle begins on the y-axis.
    pub start_y: i64,
    pub width: i64,
    pub height: i64,
}

/// A collection of edges, e.g. borders, margins, padding.
#[derive(Clone, Copy, Debug, PartialEq, Eq, Structural)]
pub struct EdgeSizes {
    pub left: i64,
    pub right: i64,
    pub top: i64,
    pub bottom: i64,
}

impl Rect {
    /// The zero rectangle.
    pub open spec fn spec_zero() -> Rect {
        Rect { start_x: 0, start_y: 0, width: 0, height: 0 }
    }

    /// The rectangle one box level outward: origin moved up and left by the
    /// edge, extent grown by both opposing edges.
    pub open spec fn spec_expanded_by_edges(self, edge: EdgeSizes) -> Rect {
        Rect {
            start_x: sat64(self.start_x - edge.left) as i64,
            start_y: sat64(self.start_y - edge.top) as i64,
            width: sat64(self.width + edge.left + edge.right) as i64,
            height: sat64(self.height + edge.top + edge.bottom) as i64,
        }
    }

    pub fn expanded_by_edges(self, edge: EdgeSizes) -> (r: Rect)
        ensures
            r == self.spec_expanded_by_edges(edge),
    {
        Rect {
            start_x: clamp_px(self.start_x as i128 - edge.left as i128),
            start_y: clamp_px(self.start_y as i128 - edge.top as i128),
            width: clamp_px(self.width as i128 + edge.left as i128 + edge.right as i128),
            height: clamp_px(self.height as i128 + edge.top as i128 + edge.bottom as i128),
        }
    }

    /// This rectangle grown by the extent of another, keeping its origin.
    pub open spec fn spec_expanded_by_rect(self, rect: Rect) -> Rect {
        Rect {
            start_x: self.start_x,
            start_y: self.start_y,
            width: sat64(self.width + rect.width) as i64,
            height: sat64(self.height + rect.height) as i64,
        }
    }

    /// Expands this rect by another.  The resulting rect has the same `start_x` and
    /// `start_y` as the `self` rect, but with width and height expanded by other rect.
    pub fn expanded_by_rect(self, rect: Rect) -> (r: Rect)
        ensures
            r == self.spec_expanded_by_rect(rect),
    {
        Rect {
            start_x: self.start_x,
            start_y: self.start_y,
            width: clamp_px(self.width as i128 + rect.width as i128),
            height: clamp_px(self.height as i128 + rect.height as i128),
        }
    }

    /// Every field multiplied by the scale factor.  The device scale factor
    /// of this engine is a whole number of device pixels per CSS pixel.
    pub open spec fn spec_scaled_by(self, scale_factor: int) -> Rect {
        Rect {
            start_x: sat64(self.start_x * scale_factor) as i64,
            start_y: sat64(self.start_y * scale_factor) as i64,
            width: sat64(self.width * scale_factor) as i64,
            height: sat64(self.height * scale_factor) as i64,
        }
    }

    pub fn scaled_by(&self, scale_factor: i64) -> (r: Rect)
        ensures
            r == self.spec_scaled_by(scale_factor as int),
    {
        Rect {
            start_x: px_mul(self.start_x, scale_factor),
            start_y: px_mul(self.start_y, scale_factor),
            width: px_mul(self.width, scale_factor),
            height: px_mul(self.height, scale_factor),
        }
    }
}

impl Default for Rect {
    /// The zero rectangle.
    fn default() -> (r: Rect)
        ensures
            r == Rect::spec_zero(),
    {
        Rect { start_x: 0, start_y: 0, width: 0, height: 0 }
    }
}

impl EdgeSizes {
    /// The zero edge set.
    pub open spec fn spec_zero() -> EdgeSizes {
        EdgeSizes { left: 0, right: 0, top: 0, bottom: 0 }
    }

    /// Every edge multiplied by the scale factor.
    pub open spec fn spec_scale_by(self, scale_factor: int) -> EdgeSizes {
        EdgeSizes {
            left: sat64(self.left * scale_factor) as i64,
            right: sat64(self.right * scale_factor) as i64,
            top: sat64(self.top * scale_factor) as i64,
            bottom: sat64(self.bottom * scale_factor) as i64,
        }
    }

    pub fn scale_by(&mut self, scale_factor: i64)
        ensures
            *final(self) == old(self).spec_scale_by(scale_factor as int),
    {
        self.left = px_mul(self.left, scale_factor);
        self.right = px_mul(self.right, scale_factor);
        self.top = px_mul(self.top, scale_factor);
        self.bottom = px_mul(self.bottom, scale_factor);
    }

    /// The component-wise sum of two edge sets, e.g. border plus padding
    /// as one combined inset.
    pub open spec fn spec_expanded_by_edges(self, edges: EdgeSizes) -> EdgeSizes {
        EdgeSizes {
            left: sat64(self.left + edges.left) as i64,
            right: sat64(self.right + edges.right) as i64,
            top: sat64(self.top + edges.top) as i64,
            bottom: sat64(self.bottom + edges.bottom) as i64,
        }
    }

    pub fn expanded_by_edges(self, edges: EdgeSizes) -> (r: EdgeSizes)
        ensures
            r == self.spec_expanded_by_edges(edges),
    {
        EdgeSizes {
            left: clamp_px(self.left as i128 + edges.left as i128),
            right: clamp_px(self.right as i128 + edges.right as i128),
            top: clamp_px(self.top as i128 + edges.top as i128),
            bottom: clamp_px(self.bottom as i128 + edges.bottom as i128),
        }
    }
}

impl Default for EdgeSizes {
    /// The zero edge set.
    fn default() -> (r: EdgeSizes)
        ensures
            r == EdgeSizes::spec_zero(),
    {
        EdgeSizes { left: 0, right: 0, top: 0, bottom: 0 }
    }
}

} // verus!
