//! Laws of the layout engine, stated and proved over the specification
//! functions the executable contracts use.

use vstd::prelude::*;
use crate::dimensions::Dimensions;
use crate::dom::DocNodeView;
use crate::flow::{spec_layout, spec_layout_block, spec_layout_children, spec_used_widths};
use crate::layout::{spec_build, spec_build_children, spec_fresh_box};
use crate::layout_box::{spec_add_child_inline, spec_inline_container_base, BoxType, LayoutBoxView};
use crate::rect::Rect;
use crate::style::ComputedStyle;

verus! {

/// Law: a box with `width: auto` and no horizontal margins, border or
/// padding resolves its content width to exactly the containing block's
/// content width.
pub proof fn lemma_auto_width_fills_containing_block(s: ComputedStyle, cw: i64)
    requires
        s.width.spec_is_auto(),
        s.margin_left.resolved(cw as int) == 0,
        s.margin_right.resolved(cw as int) == 0,
        s.border_left_width == 0,
        s.border_right_width == 0,
        s.padding_left.resolved(cw as int) == 0,
        s.padding_right.resolved(cw as int) == 0,
        0 <= cw,
    ensures
        spec_used_widths(s, cw as int).0 == cw,
{
}

/// Laying out children only grows the parent's content height: the
/// content origin and width, and every edge set, come through unchanged.
pub proof fn lemma_layout_children_keeps_frame(d: Dimensions, cs: Seq<LayoutBoxView>)
    ensures
        ({
            let r = spec_layout_children(d, cs).0;
            &&& r.content.start_x == d.content.start_x
            &&& r.content.start_y == d.content.start_y
            &&& r.content.width == d.content.width
            &&& r.padding == d.padding
            &&& r.border == d.border
            &&& r.margin == d.margin
        }),
    decreases cs,
{
    if cs.len() > 0 {
        let c1 = spec_layout(cs[0], d);
        let d1 = Dimensions {
            content: Rect {
                height: crate::length::sat64(
                    d.content.height + c1.dimensions.spec_margin_box().height,
                ) as i64,
                ..d.content
            },
            ..d
        };
        lemma_layout_children_keeps_frame(d1, cs.drop_first());
    }
}

/// Law: the auto-width rule holds through a whole block layout pass — a
/// block box styled with `width: auto` and no horizontal insets leaves
/// layout with its content width equal to the containing block's.
pub proof fn lemma_auto_width_block_fills(b: LayoutBoxView, cb: Dimensions)
    requires
        b.box_type is Block,
        b.node.style.width.spec_is_auto(),
        b.node.style.margin_left.resolved(cb.content.width as int) == 0,
        b.node.style.margin_right.resolved(cb.content.width as int) == 0,
        b.node.style.border_left_width == 0,
        b.node.style.border_right_width == 0,
        b.node.style.padding_left.resolved(cb.content.width as int) == 0,
        b.node.style.padding_right.resolved(cb.content.width as int) == 0,
        0 <= cb.content.width,
    ensures
        spec_layout(b, cb).dimensions.content.width == cb.content.width,
{
    lemma_auto_width_fills_containing_block(b.node.style, cb.content.width);
    let b1 = crate::flow::spec_apply_block_width(b, cb);
    let b2 = crate::flow::spec_apply_block_position(b1, cb);
    lemma_layout_children_keeps_frame(b2.dimensions, b2.children);
}

/// Skipping a `display: none` child anywhere in the fold leaves the
/// built box unchanged.
proof fn lemma_build_children_skip_none(b: LayoutBoxView, cs: Seq<DocNodeView>, i: int)
    requires
        0 <= i < cs.len(),
        cs[i].style.display is DisplayNone,
    ensures
        spec_build_children(b, cs.remove(i)) == spec_build_children(b, cs),
    decreases cs.len(),
{
    if i == 0 {
        assert(cs.remove(0) =~= cs.drop_first());
    } else {
        let b1 = match cs[0].style.display {
            crate::style::Display::Block => match spec_build(cs[0]) {
                Option::Some(cb) => LayoutBoxView { children: b.children.push(cb), ..b },
                Option::None => b,
            },
            crate::style::Display::Inline => match spec_build(cs[0]) {
                Option::Some(cb) => spec_add_child_inline(b, cb),
                Option::None => b,
            },
            crate::style::Display::DisplayNone => b,
        };
        assert(cs.remove(i)[0] == cs[0]);
        assert(cs.remove(i).drop_first() =~= cs.drop_first().remove(i - 1));
        lemma_build_children_skip_none(b1, cs.drop_first(), i - 1);
    }
}

/// Law: a `display: none` subtree produces no layout box and contributes
/// nothing to its parent — building the tree with such a child removed
/// yields the very same layout tree, so the child adds zero height in
/// every later layout pass.
pub proof fn lemma_display_none_child_ignored(n: DocNodeView, i: int)
    requires
        0 <= i < n.children.len(),
        n.children[i].style.display is DisplayNone,
    ensures
        spec_build(DocNodeView { children: n.children.remove(i), ..n }) == spec_build(n),
{
    let n2 = DocNodeView { children: n.children.remove(i), ..n };
    if !(n.style.display is DisplayNone) {
        assert(spec_fresh_box(n2) == spec_fresh_box(n));
        lemma_build_children_skip_none(spec_fresh_box(n), n.children, i);
    }
}

/// The wrapping discipline of a block container's child list: no
/// inline-level box stands directly in it, and no two anonymous
/// containers stand side by side — every maximal run of inline children
/// sits in exactly one anonymous container.
pub open spec fn spec_children_normalized(cs: Seq<LayoutBoxView>) -> bool {
    &&& forall|i: int| 0 <= i < cs.len() ==> !((#[trigger] cs[i]).box_type is Inline)
    &&& forall|i: int, j: int|
        0 <= i && j == i + 1 && j < cs.len() ==> !((#[trigger] cs[i]).box_type is Anonymous && (
        #[trigger] cs[j]).box_type is Anonymous)
}

/// A whole tree obeys the wrapping discipline: every block box's child
/// list is normalized, recursively.
pub open spec fn spec_box_normalized(b: LayoutBoxView) -> bool
    decreases b, 1int,
{
    &&& (b.box_type is Block ==> spec_children_normalized(b.children))
    &&& spec_boxes_normalized(b.children)
}

pub open spec fn spec_boxes_normalized(cs: Seq<LayoutBoxView>) -> bool
    decreases cs, 9int,
{
    cs.len() == 0 || (spec_box_normalized(cs[0]) && spec_boxes_normalized(cs.drop_first()))
}

/// `spec_boxes_normalized` holds element-wise.
pub proof fn lemma_boxes_normalized_index(cs: Seq<LayoutBoxView>)
    requires
        spec_boxes_normalized(cs),
    ensures
        forall|i: int| 0 <= i < cs.len() ==> spec_box_normalized(#[trigger] cs[i]),
    decreases cs.len(),
{
    if cs.len() > 0 {
        lemma_boxes_normalized_index(cs.drop_first());
        assert forall|i: int| 0 <= i < cs.len() implies spec_box_normalized(
            #[trigger] cs[i],
        ) by {
            if i > 0 {
                assert(cs[i] == cs.drop_first()[i - 1]);
            }
        }
    }
}

/// Pushing one more normalized subtree keeps the element-wise property.
proof fn lemma_boxes_normalized_push(cs: Seq<LayoutBoxView>, c: LayoutBoxView)
    requires
        spec_boxes_normalized(cs),
        spec_box_normalized(c),
    ensures
        spec_boxes_normalized(cs.push(c)),
    decreases cs.len(),
{
    if cs.len() == 0 {
        assert(cs.push(c)[0] == c);
        assert(cs.push(c).drop_first() =~= Seq::<LayoutBoxView>::empty());
        assert(spec_boxes_normalized(cs.push(c).drop_first()));
        assert(spec_boxes_normalized(cs.push(c)));
    } else {
        assert(cs.push(c)[0] == cs[0]);
        assert(cs.push(c).drop_first() =~= cs.drop_first().push(c));
        assert(spec_box_normalized(cs.push(c)[0]));
        lemma_boxes_normalized_push(cs.drop_first(), c);
    }
}

/// Updating one element with a normalized subtree keeps the element-wise
/// property.
proof fn lemma_boxes_normalized_update(cs: Seq<LayoutBoxView>, k: int, c: LayoutBoxView)
    requires
        spec_boxes_normalized(cs),
        spec_box_normalized(c),
        0 <= k < cs.len(),
    ensures
        spec_boxes_normalized(cs.update(k, c)),
    decreases cs.len(),
{
    if k == 0 {
        assert(cs.update(0, c)[0] == c);
        assert(cs.update(0, c).drop_first() =~= cs.drop_first());
    } else {
        assert(cs.update(k, c)[0] == cs[0]);
        assert(cs.update(k, c).drop_first() =~= cs.drop_first().update(k - 1, c));
        lemma_boxes_normalized_update(cs.drop_first(), k - 1, c);
    }
}

/// Routing one inline-level child through the anonymous container keeps
/// the whole box normalized, provided the child's own subtree is.
proof fn lemma_add_child_inline_normalized(b: LayoutBoxView, c: LayoutBoxView)
    requires
        spec_box_normalized(b),
        spec_box_normalized(c),
    ensures
        spec_box_normalized(spec_add_child_inline(b, c)),
{
    if !(b.box_type is Block) {
        lemma_boxes_normalized_push(b.children, c);
    } else {
        let base = spec_inline_container_base(b);
        let k = base.children.len() - 1;
        let cont = base.children[k];
        let cont2 = LayoutBoxView { children: cont.children.push(c), ..cont };
        let result = base.children.update(k, cont2);
        if b.children.len() > 0 && b.children.last().box_type is Anonymous {
            lemma_boxes_normalized_index(b.children);
            assert(cont == b.children.last());
            assert(spec_box_normalized(cont));
            lemma_boxes_normalized_push(cont.children, c);
            assert(spec_box_normalized(cont2));
            lemma_boxes_normalized_update(base.children, k, cont2);
        } else {
            let anon = crate::layout_box::anon_box_view(b.node);
            assert(anon.children =~= Seq::<LayoutBoxView>::empty());
            assert(spec_boxes_normalized(anon.children));
            assert(spec_box_normalized(anon));
            lemma_boxes_normalized_push(b.children, anon);
            assert(cont == anon);
            lemma_boxes_normalized_push(cont.children, c);
            assert(spec_box_normalized(cont2));
            lemma_boxes_normalized_update(base.children, k, cont2);
        }
        // The updated element keeps its kind, so every adjacency pair of
        // the base list survives the update.
        assert(cont2.box_type == cont.box_type);
        assert(spec_children_normalized(base.children)) by {
            if !(b.children.len() > 0 && b.children.last().box_type is Anonymous) {
                let anon = crate::layout_box::anon_box_view(b.node);
                let cs2 = b.children.push(anon);
                assert forall|i: int| 0 <= i < cs2.len() implies !((#[trigger] cs2[i]).box_type
                    is Inline) by {
                    if i < b.children.len() {
                        assert(cs2[i] == b.children[i]);
                    }
                }
                assert forall|i: int, j: int| 0 <= i && j == i + 1 && j < cs2.len() implies !((
                #[trigger] cs2[i]).box_type is Anonymous && (#[trigger] cs2[j]).box_type
                    is Anonymous) by {
                    if j < b.children.len() {
                        assert(cs2[i] == b.children[i] && cs2[j] == b.children[j]);
                    } else if b.children.len() > 0 {
                        assert(cs2[i] == b.children.last());
                    }
                }
            }
        }
        assert forall|i: int| 0 <= i < result.len() implies !((#[trigger] result[i]).box_type
            is Inline) by {
            if i != k {
                assert(result[i] == base.children[i]);
            }
        }
        assert forall|i: int, j: int| 0 <= i && j == i + 1 && j < result.len() implies !((
        #[trigger] result[i]).box_type is Anonymous && (#[trigger] result[j]).box_type
            is Anonymous) by {
            assert(base.children[i].box_type == result[i].box_type);
            assert(base.children[j].box_type == result[j].box_type);
        }
        assert(spec_children_normalized(result));
    }
}

/// The fold only ever touches the child list: the box's own kind, node
/// and geometry come through unchanged.
pub proof fn lemma_build_children_shape(b: LayoutBoxView, cs: Seq<DocNodeView>)
    ensures
        spec_build_children(b, cs).box_type == b.box_type,
        spec_build_children(b, cs).node == b.node,
        spec_build_children(b, cs).dimensions == b.dimensions,
    decreases cs,
{
    if cs.len() > 0 {
        let b1 = match cs[0].style.display {
            crate::style::Display::Block => match spec_build(cs[0]) {
                Option::Some(cb) => LayoutBoxView { children: b.children.push(cb), ..b },
                Option::None => b,
            },
            crate::style::Display::Inline => match spec_build(cs[0]) {
                Option::Some(cb) => spec_add_child_inline(b, cb),
                Option::None => b,
            },
            crate::style::Display::DisplayNone => b,
        };
        lemma_build_children_shape(b1, cs.drop_first());
    }
}

/// A built box's kind follows its node's display: block for block,
/// inline for inline, and nothing at all for `display: none`.
pub proof fn lemma_built_box_type(n: DocNodeView)
    ensures
        match spec_build(n) {
            Option::Some(b) => b.box_type == (if n.style.display is Block {
                BoxType::Block
            } else {
                BoxType::Inline
            }),
            Option::None => n.style.display is DisplayNone,
        },
{
    if !(n.style.display is DisplayNone) {
        lemma_build_children_shape(spec_fresh_box(n), n.children);
    }
}

/// Appending a non-inline, non-anonymous box keeps a normalized child
/// list normalized.
proof fn lemma_children_normalized_push_block(cs: Seq<LayoutBoxView>, c: LayoutBoxView)
    requires
        spec_children_normalized(cs),
        c.box_type is Block,
    ensures
        spec_children_normalized(cs.push(c)),
{
    let cs2 = cs.push(c);
    assert forall|i: int| 0 <= i < cs2.len() implies !((#[trigger] cs2[i]).box_type is Inline) by {
        if i < cs.len() {
            assert(cs2[i] == cs[i]);
        }
    }
    assert forall|i: int, j: int| 0 <= i && j == i + 1 && j < cs2.len() implies !((
    #[trigger] cs2[i]).box_type is Anonymous && (#[trigger] cs2[j]).box_type is Anonymous) by {
        if j < cs.len() {
            assert(cs2[i] == cs[i] && cs2[j] == cs[j]);
        } else {
            assert(cs2[j] == c);
        }
    }
}

/// The fold that routes document children into a box keeps it
/// normalized.
proof fn lemma_build_children_normalized(b: LayoutBoxView, cs: Seq<DocNodeView>)
    requires
        spec_box_normalized(b),
    ensures
        spec_box_normalized(spec_build_children(b, cs)),
    decreases cs, 9int,
{
    if cs.len() > 0 {
        let b1 = match cs[0].style.display {
            crate::style::Display::Block => match spec_build(cs[0]) {
                Option::Some(cb) => LayoutBoxView { children: b.children.push(cb), ..b },
                Option::None => b,
            },
            crate::style::Display::Inline => match spec_build(cs[0]) {
                Option::Some(cb) => spec_add_child_inline(b, cb),
                Option::None => b,
            },
            crate::style::Display::DisplayNone => b,
        };
        match cs[0].style.display {
            crate::style::Display::Block => {
                lemma_built_tree_normalized(cs[0]);
                lemma_built_box_type(cs[0]);
                let cb = spec_build(cs[0]).unwrap();
                lemma_boxes_normalized_push(b.children, cb);
                if b.box_type is Block {
                    lemma_children_normalized_push_block(b.children, cb);
                }
            },
            crate::style::Display::Inline => {
                lemma_built_tree_normalized(cs[0]);
                let cb = spec_build(cs[0]).unwrap();
                lemma_add_child_inline_normalized(b, cb);
            },
            crate::style::Display::DisplayNone => {},
        }
        lemma_build_children_normalized(b1, cs.drop_first());
    }
}

/// Law: the tree builder establishes the anonymous-wrapping invariant —
/// in every tree it returns, each block container's children are either
/// block-level or anonymous containers, with each maximal run of inline
/// children grouped into exactly one anonymous container and no two
/// anonymous containers adjacent.
pub proof fn lemma_built_tree_normalized(n: DocNodeView)
    ensures
        match spec_build(n) {
            Option::Some(b) => spec_box_normalized(b),
            Option::None => true,
        },
    decreases n, 1int,
{
    if !(n.style.display is DisplayNone) {
        let fresh = spec_fresh_box(n);
        assert(spec_box_normalized(fresh));
        lemma_build_children_normalized(fresh, n.children);
    }
}


/// Law: with non-negative edges, each derived box contains the one inside
/// it — the padding box contains the content rectangle, the border box
/// the padding box, and the margin box the border box, in both axes.
pub proof fn lemma_boxes_nest(d: Dimensions)
    requires
        d.padding.left >= 0,
        d.padding.right >= 0,
        d.padding.top >= 0,
        d.padding.bottom >= 0,
        d.border.left >= 0,
        d.border.right >= 0,
        d.border.top >= 0,
        d.border.bottom >= 0,
        d.margin.left >= 0,
        d.margin.right >= 0,
        d.margin.top >= 0,
        d.margin.bottom >= 0,
    ensures
        d.spec_padding_box().start_x <= d.content.start_x,
        d.spec_padding_box().start_y <= d.content.start_y,
        d.spec_padding_box().width >= d.content.width,
        d.spec_padding_box().height >= d.content.height,
        d.spec_border_box().start_x <= d.spec_padding_box().start_x,
        d.spec_border_box().start_y <= d.spec_padding_box().start_y,
        d.spec_border_box().width >= d.spec_padding_box().width,
        d.spec_border_box().height >= d.spec_padding_box().height,
        d.spec_margin_box().start_x <= d.spec_border_box().start_x,
        d.spec_margin_box().start_y <= d.spec_border_box().start_y,
        d.spec_margin_box().width >= d.spec_border_box().width,
        d.spec_margin_box().height >= d.spec_border_box().height,
{
}

/// A computed length that can only resolve to a non-negative number of
/// pixels: `auto`, a non-negative length, or any percentage (percentages
/// resolve against a width clamped to zero from below).
pub open spec fn spec_lpa_nonneg(v: crate::length::LengthPercentageOrAuto) -> bool {
    match v {
        crate::length::LengthPercentageOrAuto::Auto => true,
        crate::length::LengthPercentageOrAuto::LengthPercentage(lp) => spec_lp_nonneg(lp),
    }
}

pub open spec fn spec_lp_nonneg(lp: crate::length::LengthPercentage) -> bool {
    match lp {
        crate::length::LengthPercentage::Length(px) => px >= 0,
        crate::length::LengthPercentage::Percentage(_) => true,
    }
}

/// A style whose every component is non-negative, as CSS guarantees of
/// computed values.
pub open spec fn spec_style_nonneg(s: ComputedStyle) -> bool {
    &&& spec_lpa_nonneg(s.width)
    &&& spec_lpa_nonneg(s.height)
    &&& spec_lpa_nonneg(s.margin_left)
    &&& spec_lpa_nonneg(s.margin_right)
    &&& spec_lpa_nonneg(s.margin_top)
    &&& spec_lpa_nonneg(s.margin_bottom)
    &&& s.border_left_width >= 0
    &&& s.border_right_width >= 0
    &&& s.border_top_width >= 0
    &&& s.border_bottom_width >= 0
    &&& spec_lp_nonneg(s.padding_left)
    &&& spec_lp_nonneg(s.padding_right)
    &&& spec_lp_nonneg(s.padding_top)
    &&& spec_lp_nonneg(s.padding_bottom)
}

/// A non-negative computed length resolves to a non-negative pixel value
/// against any containing width.
pub proof fn lemma_lp_resolved_nonneg(lp: crate::length::LengthPercentage, cw: int)
    requires
        spec_lp_nonneg(lp),
    ensures
        lp.resolved(cw) >= 0,
{
    if lp is Percentage {
        let p = lp->Percentage_0;
        assert((p as int) * crate::length::clamp_nonneg(cw) >= 0) by (nonlinear_arith)
            requires
                p >= 0,
                crate::length::clamp_nonneg(cw) >= 0,
        ;
    }
}

pub proof fn lemma_lpa_resolved_nonneg(v: crate::length::LengthPercentageOrAuto, cw: int)
    requires
        spec_lpa_nonneg(v),
    ensures
        v.resolved(cw) >= 0,
{
    match v {
        crate::length::LengthPercentageOrAuto::Auto => {},
        crate::length::LengthPercentageOrAuto::LengthPercentage(lp) => {
            lemma_lp_resolved_nonneg(lp, cw);
        },
    }
}

/// Every box of a tree carries a non-negative style and enters layout
/// with non-negative height and vertical edges, as freshly built boxes
/// do.
pub open spec fn spec_box_nonneg(b: LayoutBoxView) -> bool
    decreases b, 1int,
{
    &&& spec_style_nonneg(b.node.style)
    &&& b.dimensions.content.height >= 0
    &&& b.dimensions.padding.top >= 0
    &&& b.dimensions.padding.bottom >= 0
    &&& b.dimensions.border.top >= 0
    &&& b.dimensions.border.bottom >= 0
    &&& b.dimensions.margin.top >= 0
    &&& b.dimensions.margin.bottom >= 0
    &&& spec_boxes_nonneg(b.children)
}

pub open spec fn spec_boxes_nonneg(cs: Seq<LayoutBoxView>) -> bool
    decreases cs, 9int,
{
    cs.len() == 0 || (spec_box_nonneg(cs[0]) && spec_boxes_nonneg(cs.drop_first()))
}

/// What layout guarantees of one laid-out box when its styles are
/// non-negative: content width and height are non-negative, and so are
/// the vertical edges its margin-box height is made of.
pub open spec fn spec_laid_out_nonneg(r: LayoutBoxView) -> bool {
    &&& r.dimensions.content.width >= 0
    &&& r.dimensions.content.height >= 0
    &&& r.dimensions.padding.top >= 0
    &&& r.dimensions.padding.bottom >= 0
    &&& r.dimensions.border.top >= 0
    &&& r.dimensions.border.bottom >= 0
    &&& r.dimensions.margin.top >= 0
    &&& r.dimensions.margin.bottom >= 0
}

/// Law: layout clamps content dimensions — a tree of non-negative styles
/// leaves a layout pass with non-negative content width and height,
/// whatever the containing block.
pub proof fn lemma_layout_nonneg(b: LayoutBoxView, cb: Dimensions)
    requires
        spec_box_nonneg(b),
    ensures
        spec_laid_out_nonneg(spec_layout(b, cb)),
    decreases b, 1int,
{
    let cw = cb.content.width as int;
    lemma_lpa_resolved_nonneg(b.node.style.width, cw);
    lemma_lpa_resolved_nonneg(b.node.style.height, cb.content.height as int);
    lemma_lpa_resolved_nonneg(b.node.style.margin_left, cw);
    lemma_lpa_resolved_nonneg(b.node.style.margin_right, cw);
    lemma_lpa_resolved_nonneg(b.node.style.margin_top, cw);
    lemma_lpa_resolved_nonneg(b.node.style.margin_bottom, cw);
    lemma_lp_resolved_nonneg(b.node.style.padding_left, cw);
    lemma_lp_resolved_nonneg(b.node.style.padding_right, cw);
    lemma_lp_resolved_nonneg(b.node.style.padding_top, cw);
    lemma_lp_resolved_nonneg(b.node.style.padding_bottom, cw);
    assert(spec_used_widths(b.node.style, cw).0 >= 0);
    if b.box_type is Block {
        let b1 = crate::flow::spec_apply_block_width(b, cb);
        let b2 = crate::flow::spec_apply_block_position(b1, cb);
        let sub = spec_layout_children(b2.dimensions, b2.children);
        lemma_layout_children_nonneg(b2.dimensions, b2.children);
        lemma_layout_children_keeps_frame(b2.dimensions, b2.children);
        assert(sub.0.content.width >= 0);
        assert(sub.0.content.height >= 0);
        assert(sub.0.padding.top >= 0 && sub.0.padding.bottom >= 0);
        assert(sub.0.border.top >= 0 && sub.0.border.bottom >= 0);
        assert(sub.0.margin.top >= 0 && sub.0.margin.bottom >= 0);
    } else {
        let b1 = crate::flow::spec_apply_block_width(b, cb);
        let sub = spec_layout_children(b1.dimensions, b1.children);
        lemma_layout_children_nonneg(b1.dimensions, b1.children);
        lemma_layout_children_keeps_frame(b1.dimensions, b1.children);
        assert(sub.0.content.width >= 0);
        assert(sub.0.content.height >= 0);
    }
}

/// Folding children into a parent only ever grows a non-negative content
/// height, and each laid-out child obeys the same bounds.
proof fn lemma_layout_children_nonneg(d: Dimensions, cs: Seq<LayoutBoxView>)
    requires
        spec_boxes_nonneg(cs),
        d.content.height >= 0,
    ensures
        spec_layout_children(d, cs).0.content.height >= 0,
    decreases cs, 9int,
{
    if cs.len() > 0 {
        lemma_layout_nonneg(cs[0], d);
        let c1 = spec_layout(cs[0], d);
        let d1 = Dimensions {
            content: Rect {
                height: crate::length::sat64(
                    d.content.height + c1.dimensions.spec_margin_box().height,
                ) as i64,
                ..d.content
            },
            ..d
        };
        assert(c1.dimensions.spec_margin_box().height >= 0);
        lemma_layout_children_nonneg(d1, cs.drop_first());
    }
}


} // verus!
