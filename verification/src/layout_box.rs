//! The layout-box tree and the block-flow layout algorithm.

use vstd::prelude::*;
use crate::dimensions::Dimensions;
use crate::dom::{NodeInfo, NodeInfoView};

verus! {

/// Which layout algorithm applies to a box.
#[derive(Clone, Copy, Debug, PartialEq, Eq, Structural)]
pub enum BoxType {
    Block,
    Inline,
    /// A synthesized box with no document node of its own, inserted so a
    /// block container's inline children have a container.
    Anonymous,
}

/// A node of the layout tree.
#[derive(Debug)]
pub struct LayoutBox {
    pub dimensions: Dimensions,
    pub box_type: BoxType,
    pub children: Vec<LayoutBox>,
    /// Snapshot of the closest non-anonymous node.  This distinction only matters for
    /// anonymous boxes, since anonymous boxes are by definition not associated with a
    /// node, but need access to a node to get computed values during layout.  If the box
    /// is a block, inline, or any other non-anonymous box, this field belongs to the
    /// actual document node associated with this box.
    pub node: NodeInfo,
}

/// The mathematical shape of a layout box.
#[verifier::ext_equal]
pub struct LayoutBoxView {
    pub dimensions: Dimensions,
    pub box_type: BoxType,
    pub children: Seq<LayoutBoxView>,
    pub node: NodeInfoView,
}

/// The view of a layout box: the same tree with sequences for child lists.
pub open spec fn box_view(b: LayoutBox) -> LayoutBoxView
    decreases b,
{
    LayoutBoxView {
        dimensions: b.dimensions,
        box_type: b.box_type,
        children: boxes_view(b.children@),
        node: b.node@,
    }
}

/// The views of a sequence of layout boxes, in order.
pub open spec fn boxes_view(s: Seq<LayoutBox>) -> Seq<LayoutBoxView>
    decreases s,
{
    if s.len() == 0 {
        Seq::empty()
    } else {
        seq![box_view(s[0])] + boxes_view(s.drop_first())
    }
}

impl View for LayoutBox {
    type V = LayoutBoxView;

    open spec fn view(&self) -> LayoutBoxView {
        box_view(*self)
    }
}

/// `boxes_view` maps `box_view` over the sequence, element by element.
pub broadcast proof fn lemma_boxes_view_len(s: Seq<LayoutBox>)
    ensures
        (#[trigger] boxes_view(s)).len() == s.len(),
    decreases s.len(),
{
    if s.len() > 0 {
        lemma_boxes_view_len(s.drop_first());
    }
}

pub broadcast proof fn lemma_boxes_view_index(s: Seq<LayoutBox>, i: int)
    requires
        0 <= i < s.len(),
    ensures
        #[trigger] boxes_view(s)[i] == box_view(s[i]),
    decreases s.len(),
{
    lemma_boxes_view_len(s);
    if i > 0 {
        lemma_boxes_view_index(s.drop_first(), i - 1);
    }
}

/// Appending a box appends its view.
pub broadcast proof fn lemma_boxes_view_push(s: Seq<LayoutBox>, x: LayoutBox)
    ensures
        #[trigger] boxes_view(s.push(x)) == boxes_view(s).push(box_view(x)),
{
    lemma_boxes_view_len(s);
    lemma_boxes_view_len(s.push(x));
    assert forall|i: int| 0 <= i < s.len() + 1 implies boxes_view(s.push(x))[i] == boxes_view(
        s,
    ).push(box_view(x))[i] by {
        lemma_boxes_view_index(s.push(x), i);
        if i < s.len() {
            lemma_boxes_view_index(s, i);
        }
    }
    assert(boxes_view(s.push(x)) =~= boxes_view(s).push(box_view(x)));
}

/// Replacing one box replaces its view.
pub broadcast proof fn lemma_boxes_view_update(s: Seq<LayoutBox>, k: int, x: LayoutBox)
    requires
        0 <= k < s.len(),
    ensures
        #![trigger boxes_view(s.update(k, x))]
        #![trigger boxes_view(s).update(k, box_view(x))]
        boxes_view(s.update(k, x)) == boxes_view(s).update(k, box_view(x)),
{
    lemma_boxes_view_len(s);
    lemma_boxes_view_len(s.update(k, x));
    assert forall|i: int| 0 <= i < s.len() implies boxes_view(s.update(k, x))[i] == boxes_view(
        s,
    ).update(k, box_view(x))[i] by {
        lemma_boxes_view_index(s.update(k, x), i);
        if i != k {
            lemma_boxes_view_index(s, i);
        }
    }
    assert(boxes_view(s.update(k, x)) =~= boxes_view(s).update(k, box_view(x)));
}

pub broadcast group group_boxes_view {
    lemma_boxes_view_len,
    lemma_boxes_view_index,
    lemma_boxes_view_push,
    lemma_boxes_view_update,
}


/// The number of boxes in a tree, the termination measure of the layout
/// recursion.
pub open spec fn box_size(b: LayoutBox) -> nat
    decreases b,
{
    1 + boxes_size(b.children@)
}

pub open spec fn boxes_size(s: Seq<LayoutBox>) -> nat
    decreases s,
{
    if s.len() == 0 {
        0
    } else {
        box_size(s[0]) + boxes_size(s.drop_first())
    }
}

/// Every box of a sequence counts no more than the whole sequence.
pub proof fn lemma_boxes_size_index(s: Seq<LayoutBox>, i: int)
    requires
        0 <= i < s.len(),
    ensures
        box_size(s[i]) <= boxes_size(s),
    decreases s.len(),
{
    if i > 0 {
        lemma_boxes_size_index(s.drop_first(), i - 1);
    }
}

/// Viewing a sequence distributes over prepending one box.
pub proof fn lemma_boxes_view_cons(x: LayoutBox, t: Seq<LayoutBox>)
    ensures
        boxes_view(seq![x] + t) == seq![box_view(x)] + boxes_view(t),
{
    let s = seq![x] + t;
    assert(s.len() == t.len() + 1);
    assert(s[0] == x);
    assert(s.drop_first() =~= t);
}

/// The view of a freshly created anonymous box borrowing `node`.
pub open spec fn anon_box_view(node: NodeInfoView) -> LayoutBoxView {
    LayoutBoxView {
        dimensions: Dimensions::spec_zero(),
        box_type: BoxType::Anonymous,
        children: Seq::empty(),
        node,
    }
}

/// The state of a block box once a trailing anonymous container is
/// guaranteed: either its last child already was anonymous, or a fresh
/// anonymous box has been appended.
pub open spec fn spec_inline_container_base(b: LayoutBoxView) -> LayoutBoxView {
    if b.children.len() > 0 && b.children.last().box_type is Anonymous {
        b
    } else {
        LayoutBoxView { children: b.children.push(anon_box_view(b.node)), ..b }
    }
}

/// The effect of `add_child_inline` on the shape of the tree: push into
/// the box itself when it is inline-level, otherwise into the trailing
/// anonymous container of the block box.
pub open spec fn spec_add_child_inline(b: LayoutBoxView, c: LayoutBoxView) -> LayoutBoxView {
    if !(b.box_type is Block) {
        LayoutBoxView { children: b.children.push(c), ..b }
    } else {
        let base = spec_inline_container_base(b);
        let k = base.children.len() - 1;
        let cont = base.children[k];
        LayoutBoxView {
            children: base.children.update(
                k,
                LayoutBoxView { children: cont.children.push(c), ..cont },
            ),
            ..base
        }
    }
}


} // verus!
