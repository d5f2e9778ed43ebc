//! The tree-building operations and the block-flow layout algorithm.

use vstd::prelude::*;
use crate::dimensions::Dimensions;
use crate::dom::NodeInfo;
use crate::length::{clamp_px, px_add, sat64, LengthPercentageOrAuto};
use crate::rect::{EdgeSizes, Rect};
use crate::style::ComputedStyle;
use crate::layout_box::{anon_box_view, box_size, box_view, boxes_size, boxes_view,
    group_boxes_view, lemma_boxes_view_cons, lemma_boxes_view_index, lemma_boxes_view_len,
    lemma_boxes_view_push, lemma_boxes_view_update, spec_add_child_inline,
    spec_inline_container_base, BoxType, LayoutBox, LayoutBoxView};

verus! {

broadcast use group_boxes_view;

impl LayoutBox {
    /// Creates a new layout box.  The passed in node should be the document node associated
    /// with the box, assuming it is a non-anonymous box.  If creating an anonymous box,
    /// `node` should be the node associated with the closest non-anonymous box.
    pub fn new(box_type: BoxType, node: NodeInfo) -> (r: LayoutBox)
        ensures
            r@ == (LayoutBoxView {
                dimensions: Dimensions::spec_zero(),
                box_type,
                children: Seq::<LayoutBoxView>::empty(),
                node: node@,
            }),
    {
        let r = LayoutBox { dimensions: Default::default(), box_type, children: Vec::new(), node };
        proof {
            assert(r@.children =~= Seq::<LayoutBoxView>::empty());
        }
        r
    }

    /// Append a direct structural child, in document order.
    pub fn add_child(&mut self, new_child: LayoutBox)
        ensures
            final(self)@ == (LayoutBoxView {
                children: old(self)@.children.push(new_child@),
                ..old(self)@
            }),
    {
        self.children.push(new_child);
        proof {
            lemma_boxes_view_push(old(self).children@, new_child);
            assert(self.children@ == old(self).children@.push(new_child));
            assert(self@ =~= (LayoutBoxView {
                children: old(self)@.children.push(new_child@),
                ..old(self)@
            }));
        }
    }

    /// Gets the proper `LayoutBox` container to insert inline-children in to.
    ///
    /// If a block box contains inline-children, an anonymous box must be used to contain
    /// them.  If this box is already an inline or anonymous box, we can use ourself to
    /// contain the inline children.  Otherwise, find or create an anonymous box: the last
    /// child is reused when it is already anonymous, so one anonymous container collects a
    /// whole run of inline siblings.
    pub fn get_inline_container(&mut self) -> (container: &mut LayoutBox)
        ensures
            !(old(self).box_type is Block) ==> *container == *old(self) && *final(self)
                == *final(container),
            old(self).box_type is Block ==> ({
                let base = spec_inline_container_base(old(self)@);
                let k = base.children.len() - 1;
                &&& container@ == base.children[k]
                &&& final(self)@ == (LayoutBoxView {
                    children: base.children.update(k, final(container)@),
                    ..base
                })
            }),
    {
        match self.box_type {
            BoxType::Inline | BoxType::Anonymous => self,
            BoxType::Block => {
                let n = self.children.len();
                let needs_new = if n == 0 {
                    true
                } else {
                    !matches!(self.children[n - 1].box_type, BoxType::Anonymous)
                };
                proof {
                    lemma_boxes_view_len(self.children@);
                    if n > 0 {
                        lemma_boxes_view_index(self.children@, n - 1);
                    }
                }
                if needs_new {
                    let node = self.node.clone();
                    let fresh = LayoutBox::new(BoxType::Anonymous, node);
                    proof {
                        lemma_boxes_view_push(self.children@, fresh);
                    }
                    self.children.push(fresh);
                }
                let k = self.children.len() - 1;
                proof {
                    lemma_boxes_view_len(self.children@);
                    lemma_boxes_view_index(self.children@, k as int);
                    assert(self@ =~= spec_inline_container_base(old(self)@));
                }
                &mut self.children[k]
            },
        }
    }

    /// Append an inline-level child: route it into the designated inline
    /// container rather than making it a direct structural child.
    pub fn add_child_inline(&mut self, new_child: LayoutBox)
        ensures
            final(self)@ == spec_add_child_inline(old(self)@, new_child@),
    {
        let ghost pre = self@;
        let container = self.get_inline_container();
        let ghost cpre = container@;
        let ghost cchildren = container.children@;
        container.children.push(new_child);
        proof {
            lemma_boxes_view_push(cchildren, new_child);
            assert(container@ =~= (LayoutBoxView {
                children: cpre.children.push(new_child@),
                ..cpre
            }));
        }
        proof {
            assert(self@ =~= spec_add_child_inline(pre, new_child@));
        }
    }
}


/// The used horizontal values of a block box, CSS 2.1 section 10.3.3:
/// content width, margin-left and margin-right, resolved against the
/// containing block's content width `cw`.
///
/// `total` is the sum of the seven horizontal components with every
/// `auto` taken as zero.  When the specified values over-constrain the
/// line, margin-right gives way (left-to-right writing only; right-to-left
/// direction is outside this engine's scope).  An `auto` width soaks up
/// the remaining space but never goes negative: a negative remainder
/// moves into margin-right instead.  When both margins are `auto` the
/// remainder is split evenly, each margin receiving half rounded toward
/// zero.
pub open spec fn spec_used_widths(s: ComputedStyle, cw: int) -> (int, int, int) {
    let w0 = s.width.resolved(cw);
    let ml0 = s.margin_left.resolved(cw);
    let mr0 = s.margin_right.resolved(cw);
    let bl = s.border_left_width as int;
    let br = s.border_right_width as int;
    let pl = s.padding_left.resolved(cw);
    let pr = s.padding_right.resolved(cw);
    let total = sat64(w0 + ml0 + mr0 + bl + br + pl + pr);
    let underflow = sat64(cw - total);
    let width_auto = s.width.spec_is_auto();
    let squeeze = !width_auto && total > cw;
    let ml_auto = s.margin_left.spec_is_auto() && !squeeze;
    let mr_auto = s.margin_right.spec_is_auto() && !squeeze;
    if !width_auto {
        if !ml_auto && !mr_auto {
            (w0, ml0, sat64(mr0 + underflow))
        } else if ml_auto && !mr_auto {
            (w0, underflow, mr0)
        } else if !ml_auto && mr_auto {
            (w0, ml0, underflow)
        } else {
            (w0, underflow / 2, underflow / 2)
        }
    } else {
        if underflow >= 0 {
            (underflow, ml0, mr0)
        } else {
            (0, ml0, sat64(mr0 + underflow))
        }
    }
}

/// A box after the width step: used width, horizontal margins, and the
/// specified horizontal borders and paddings written into its dimensions.
pub open spec fn spec_apply_block_width(b: LayoutBoxView, cb: Dimensions) -> LayoutBoxView {
    let cw = cb.content.width as int;
    let s = b.node.style;
    let used = spec_used_widths(s, cw);
    LayoutBoxView {
        dimensions: Dimensions {
            content: Rect { width: used.0 as i64, ..b.dimensions.content },
            padding: EdgeSizes {
                left: s.padding_left.resolved(cw) as i64,
                right: s.padding_right.resolved(cw) as i64,
                ..b.dimensions.padding
            },
            border: EdgeSizes {
                left: s.border_left_width,
                right: s.border_right_width,
                ..b.dimensions.border
            },
            margin: EdgeSizes { left: used.1 as i64, right: used.2 as i64, ..b.dimensions.margin },
        },
        ..b
    }
}

/// A box after the position step: vertical edges resolved (`auto` margins
/// count as zero here), and the content origin placed just inside the
/// containing block's current content extent, so each box lands below
/// every sibling laid out before it.
pub open spec fn spec_apply_block_position(b: LayoutBoxView, cb: Dimensions) -> LayoutBoxView {
    let cw = cb.content.width as int;
    let s = b.node.style;
    let margin = EdgeSizes {
        top: s.margin_top.resolved(cw) as i64,
        bottom: s.margin_bottom.resolved(cw) as i64,
        ..b.dimensions.margin
    };
    let border = EdgeSizes {
        top: s.border_top_width,
        bottom: s.border_bottom_width,
        ..b.dimensions.border
    };
    let padding = EdgeSizes {
        top: s.padding_top.resolved(cw) as i64,
        bottom: s.padding_bottom.resolved(cw) as i64,
        ..b.dimensions.padding
    };
    let x = sat64(cb.content.start_x + margin.left + border.left + padding.left);
    let y = sat64(cb.content.start_y + cb.content.height + margin.top + border.top + padding.top);
    LayoutBoxView {
        dimensions: Dimensions {
            content: Rect { start_x: x as i64, start_y: y as i64, ..b.dimensions.content },
            padding,
            border,
            margin,
        },
        ..b
    }
}

/// A box after the height step: an explicit height overwrites the
/// accumulated children height, with percentages resolved against the
/// containing block's content height; `auto` keeps the accumulated value.
pub open spec fn spec_apply_block_height(b: LayoutBoxView, cb: Dimensions) -> LayoutBoxView {
    match b.node.style.height {
        LengthPercentageOrAuto::Auto => b,
        LengthPercentageOrAuto::LengthPercentage(lp) => LayoutBoxView {
            dimensions: Dimensions {
                content: Rect {
                    height: lp.resolved(cb.content.height as int) as i64,
                    ..b.dimensions.content
                },
                ..b.dimensions
            },
            ..b
        },
    }
}

impl LayoutBox {
    /// Calculate the width of a block-level non-replaced element in normal flow.
    ///
    /// Sets the horizontal margin, padding and border dimensions, and the `width`.
    pub fn calculate_block_width(&mut self, containing_block: Dimensions)
        ensures
            final(self)@ == spec_apply_block_width(old(self)@, containing_block),
            final(self).children@ == old(self).children@,
    {
        let cw = containing_block.content.width;
        let style = self.node.style;

        let border_left = style.border_left_width;
        let border_right = style.border_right_width;
        let padding_left = style.padding_left.to_px(cw);
        let padding_right = style.padding_right.to_px(cw);

        // Every `auto` contributes zero to the total.
        let w0 = style.width.to_px(cw);
        let ml0 = style.margin_left.to_px(cw);
        let mr0 = style.margin_right.to_px(cw);

        let total = clamp_px(
            w0 as i128 + ml0 as i128 + mr0 as i128 + border_left as i128 + border_right as i128
                + padding_left as i128 + padding_right as i128,
        );
        // Negative when the box over-constrains its containing block.
        let underflow = clamp_px(cw as i128 - total as i128);

        let width_auto = style.width.is_auto();
        // If width is not auto and the total is wider than the containing block,
        // auto margins are treated as zero for the rules below.
        let squeeze = !width_auto && total > cw;
        let ml_auto = style.margin_left.is_auto() && !squeeze;
        let mr_auto = style.margin_right.is_auto() && !squeeze;

        let used: (i64, i64, i64) = if !width_auto {
            if !ml_auto && !mr_auto {
                // Over-constrained: margin-right gives way (left-to-right only).
                (w0, ml0, px_add(mr0, underflow))
            } else if ml_auto && !mr_auto {
                (w0, underflow, mr0)
            } else if !ml_auto && mr_auto {
                (w0, ml0, underflow)
            } else {
                // Both margins auto: center the box.
                assert(underflow >= 0);
                let half = ((underflow as u64) / 2) as i64;
                (w0, half, half)
            }
        } else {
            if underflow >= 0 {
                (underflow, ml0, mr0)
            } else {
                // Width cannot be negative; margin-right absorbs the deficit.
                (0, ml0, px_add(mr0, underflow))
            }
        };

        let d0 = self.dimensions;
        self.dimensions = Dimensions {
            content: Rect { width: used.0, ..d0.content },
            padding: EdgeSizes { left: padding_left, right: padding_right, ..d0.padding },
            border: EdgeSizes { left: border_left, right: border_right, ..d0.border },
            margin: EdgeSizes { left: used.1, right: used.2, ..d0.margin },
        };
        proof {
            assert(self@ =~= spec_apply_block_width(old(self)@, containing_block));
        }
    }

    /// Calculates this box's position (x, y) on the page: just inside the
    /// containing block's content origin, below everything already laid
    /// out in it.
    pub fn calculate_block_position(&mut self, containing_block: Dimensions)
        ensures
            final(self)@ == spec_apply_block_position(old(self)@, containing_block),
            final(self).children@ == old(self).children@,
    {
        let cw = containing_block.content.width;
        let style = self.node.style;
        let d0 = self.dimensions;

        // None of the vertical components auto-resolves: `auto` counts as zero.
        let margin = EdgeSizes {
            top: style.margin_top.to_px(cw),
            bottom: style.margin_bottom.to_px(cw),
            ..d0.margin
        };
        let border = EdgeSizes {
            top: style.border_top_width,
            bottom: style.border_bottom_width,
            ..d0.border
        };
        let padding = EdgeSizes {
            top: style.padding_top.to_px(cw),
            bottom: style.padding_bottom.to_px(cw),
            ..d0.padding
        };
        let x = clamp_px(
            containing_block.content.start_x as i128 + margin.left as i128 + border.left as i128
                + padding.left as i128,
        );
        // Position the box below all the previous boxes in the container.
        let y = clamp_px(
            containing_block.content.start_y as i128 + containing_block.content.height as i128
                + margin.top as i128 + border.top as i128 + padding.top as i128,
        );
        self.dimensions = Dimensions {
            content: Rect { start_x: x, start_y: y, ..d0.content },
            padding,
            border,
            margin,
        };
        proof {
            assert(self@ =~= spec_apply_block_position(old(self)@, containing_block));
        }
    }

    /// If the height is set to an explicit length, use that; otherwise keep
    /// the value accumulated while laying out the children.
    pub fn calculate_block_height(&mut self, containing_block: Dimensions)
        ensures
            final(self)@ == spec_apply_block_height(old(self)@, containing_block),
            final(self).children@ == old(self).children@,
    {
        if let LengthPercentageOrAuto::LengthPercentage(lp) = self.node.style.height {
            let h = lp.to_px(containing_block.content.height);
            let d0 = self.dimensions;
            self.dimensions = Dimensions {
                content: Rect { height: h, ..d0.content },
                ..d0
            };
        }
        proof {
            assert(self@ =~= spec_apply_block_height(old(self)@, containing_block));
        }
    }
}



/// One box laid out against its containing block: the block algorithm
/// for block boxes; for inline and anonymous boxes the width pass and the
/// children, the engine's stand-in until a true inline formatting context
/// exists.
pub open spec fn spec_layout(b: LayoutBoxView, cb: Dimensions) -> LayoutBoxView
    decreases b, 1int,
{
    if b.box_type is Block {
        spec_layout_block(b, cb)
    } else {
        let b1 = spec_apply_block_width(b, cb);
        let sub = spec_layout_children(b1.dimensions, b1.children);
        LayoutBoxView { dimensions: sub.0, children: sub.1, ..b1 }
    }
}

/// The block algorithm: width, then position, then the children, then
/// height, in that order — width before children because a child's width
/// depends on its parent's, height after because a parent's height
/// depends on its children's.
pub open spec fn spec_layout_block(b: LayoutBoxView, cb: Dimensions) -> LayoutBoxView
    decreases b, 0int,
{
    let b1 = spec_apply_block_position(spec_apply_block_width(b, cb), cb);
    let sub = spec_layout_children(b1.dimensions, b1.children);
    spec_apply_block_height(LayoutBoxView { dimensions: sub.0, children: sub.1, ..b1 }, cb)
}

/// Children laid out in document order, each against the parent's
/// dimensions as they stand at its turn: after each child, the parent's
/// content height grows by that child's margin-box height, so the next
/// sibling lands below it.
pub open spec fn spec_layout_children(d: Dimensions, cs: Seq<LayoutBoxView>) -> (
    Dimensions,
    Seq<LayoutBoxView>,
)
    decreases cs, 9int,
{
    if cs.len() == 0 {
        (d, cs)
    } else {
        let c1 = spec_layout(cs[0], d);
        let d1 = Dimensions {
            content: Rect {
                height: sat64(d.content.height + c1.dimensions.spec_margin_box().height) as i64,
                ..d.content
            },
            ..d
        };
        let sub = spec_layout_children(d1, cs.drop_first());
        (sub.0, seq![c1] + sub.1)
    }
}

impl LayoutBox {
    /// Calculates the dimensions of this box, and any child boxes.
    ///
    /// A block's width depends on that of its parent (called "containing block" in the
    /// spec), while a block's height depends on that of its children.  This is important
    /// to know in layout.
    ///
    /// In this step, we will be taking computed values and calculating actual, used
    /// values based on the constraint of our environment.
    pub fn layout(self, containing_block: Dimensions) -> (r: LayoutBox)
        ensures
            r@ == spec_layout(self@, containing_block),
        decreases box_size(self), 2int,
    {
        match self.box_type {
            BoxType::Block => self.layout_block(containing_block),
            BoxType::Inline | BoxType::Anonymous => {
                // True inline and anonymous layout is an open gap of this
                // engine: these boxes reuse the block width pass and then
                // lay out their children.
                let ghost entry = self;
                let mut b = self;
                b.calculate_block_width(containing_block);
                let r = b.layout_block_children();
                proof {
                    assert(r@ =~= spec_layout(entry@, containing_block));
                }
                r
            },
        }
    }

    /// Assuming `self` is a block box, calculate the dimensions of this box and its
    /// children.
    pub fn layout_block(self, containing_block: Dimensions) -> (r: LayoutBox)
        ensures
            r@ == spec_layout_block(self@, containing_block),
        decreases box_size(self), 1int,
    {
        let ghost entry = self;
        let mut b = self;
        // Child width can depend on parent width, so we need to calculate this box's
        // width before laying out its children.
        b.calculate_block_width(containing_block);
        // Determine where the box is located within its containing block.
        b.calculate_block_position(containing_block);
        // Recursively lay out the children of this box.
        let mut b = b.layout_block_children();
        // Parent height can depend on child height, so let's calculate our height now
        // that we've laid out our children.
        b.calculate_block_height(containing_block);
        proof {
            assert(b@ =~= spec_layout_block(entry@, containing_block));
        }
        b
    }

    /// Lay out this box's children in document order, growing this box's
    /// content height by each child's margin-box height as it goes.
    pub fn layout_block_children(self) -> (r: LayoutBox)
        ensures
            r@ == ({
                let sub = spec_layout_children(self@.dimensions, self@.children);
                LayoutBoxView { dimensions: sub.0, children: sub.1, ..self@ }
            }),
        decreases box_size(self), 0int,
    {
        let ghost entry = self;
        let LayoutBox { dimensions, box_type, children, node } = self;
        let (d2, children2) = LayoutBox::layout_each(dimensions, children);
        let r = LayoutBox { dimensions: d2, box_type, children: children2, node };
        proof {
            assert(r@ =~= ({
                let sub = spec_layout_children(entry@.dimensions, entry@.children);
                LayoutBoxView { dimensions: sub.0, children: sub.1, ..entry@ }
            }));
        }
        r
    }

    /// Lay out each pending box against `d`, in order, threading the
    /// growing content height through.
    fn layout_each(d: Dimensions, pending: Vec<LayoutBox>) -> (r: (Dimensions, Vec<LayoutBox>))
        ensures
            ({
                let sub = spec_layout_children(d, boxes_view(pending@));
                r.0 == sub.0 && boxes_view(r.1@) == sub.1
            }),
        decreases boxes_size(pending@), 9int,
    {
        let ghost entry = pending@;
        let mut pending = pending;
        if pending.len() == 0 {
            proof {
                assert(boxes_view(pending@) =~= Seq::<LayoutBoxView>::empty());
            }
            (d, pending)
        } else {
            let child = pending.remove(0);
            proof {
                assert(pending@ =~= entry.drop_first());
                lemma_boxes_view_index(entry, 0);
            }
            let child = child.layout(d);
            let mb = child.dimensions.margin_box();
            let d1 = Dimensions {
                content: Rect { height: px_add(d.content.height, mb.height), ..d.content },
                ..d
            };
            proof {
                assert(boxes_size(entry) == box_size(entry[0]) + boxes_size(entry.drop_first()));
                assert(box_size(entry[0]) >= 1);
                assert(boxes_size(pending@) < boxes_size(entry));
            }
            let (df, mut rest) = Self::layout_each(d1, pending);
            let ghost rest_pre = rest@;
            rest.insert(0, child);
            proof {
                let sub = spec_layout_children(d, boxes_view(entry));
                assert(boxes_view(entry).drop_first() =~= boxes_view(entry.drop_first()));
                assert(rest@ =~= seq![child] + rest_pre);
                lemma_boxes_view_cons(child, rest_pre);
                assert(boxes_view(rest@) =~= sub.1);
            }
            (df, rest)
        }
    }
}


} // verus!
