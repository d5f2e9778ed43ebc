//! Building the layout tree from the styled document, and the global
//! layout entry point.

use vstd::prelude::*;
use crate::dimensions::Dimensions;
use crate::dom::{doc_children_view, doc_size, doc_view, docs_size, lemma_doc_children_view, lemma_docs_size_index,
    DocNode, DocNodeView, NodeInfo, NodeInfoView};
use crate::flow::spec_layout;
use crate::layout_box::{BoxType, LayoutBox, LayoutBoxView, spec_add_child_inline};
use crate::rect::Rect;
use crate::style::Display;

verus! {

/// The layout box generated by one document node, before any children are
/// routed into it.
pub open spec fn spec_fresh_box(n: DocNodeView) -> LayoutBoxView {
    LayoutBoxView {
        dimensions: Dimensions::spec_zero(),
        box_type: if n.style.display is Block {
            BoxType::Block
        } else {
            BoxType::Inline
        },
        children: Seq::empty(),
        node: NodeInfoView { data: n.data, style: n.style },
    }
}

/// The layout tree a styled document node generates: nothing for
/// `display: none`, otherwise a block or inline box with the node's
/// children routed into it in document order.
pub open spec fn spec_build(n: DocNodeView) -> Option<LayoutBoxView>
    decreases n, 1int,
{
    if n.style.display is DisplayNone {
        Option::None
    } else {
        Option::Some(spec_build_children(spec_fresh_box(n), n.children))
    }
}

/// Route each document child into the box under construction: block-level
/// children become direct structural children, inline-level children go
/// through the anonymous inline container, `display: none` children
/// vanish.
pub open spec fn spec_build_children(b: LayoutBoxView, cs: Seq<DocNodeView>) -> LayoutBoxView
    decreases cs, 9int,
{
    if cs.len() == 0 {
        b
    } else {
        let b1 = match cs[0].style.display {
            Display::Block => match spec_build(cs[0]) {
                Option::Some(cb) => LayoutBoxView { children: b.children.push(cb), ..b },
                Option::None => b,
            },
            Display::Inline => match spec_build(cs[0]) {
                Option::Some(cb) => spec_add_child_inline(b, cb),
                Option::None => b,
            },
            Display::DisplayNone => b,
        };
        spec_build_children(b1, cs.drop_first())
    }
}

/// Takes a document node and builds the corresponding layout tree of it and its
/// children.  Returns `None` exactly when `node` has `display: none`.
///
/// A block-level child of an inline box is kept as a direct structural child: this
/// engine does not fragment an inline box around block-level content, a deliberate,
/// documented policy rather than a full treatment of that case.
pub fn build_layout_tree(node: &DocNode) -> (r: Option<LayoutBox>)
    ensures
        r is Some <==> !(node.style.display is DisplayNone),
        match r {
            Option::Some(b) => spec_build(node@) == Option::Some(b@),
            Option::None => spec_build(node@) is None,
        },
    decreases doc_size(*node),
{
    let box_type = match node.style.display {
        Display::Block => BoxType::Block,
        Display::Inline => BoxType::Inline,
        Display::DisplayNone => {
            return Option::None;
        },
    };
    let mut layout_box = LayoutBox::new(
        box_type,
        NodeInfo { data: node.data.clone(), style: node.style },
    );
    proof {
        assert(layout_box@ =~= spec_fresh_box(node@));
        lemma_doc_children_view(node.children@);
        assert(node@.children.skip(0) =~= node@.children);
    }
    let n = node.children.len();
    let mut i: usize = 0;
    while i < n
        invariant
            n == node.children@.len(),
            i <= n,
            spec_build_children(layout_box@, node@.children.skip(i as int)) == spec_build_children(
                spec_fresh_box(node@),
                node@.children,
            ),
            doc_children_view(node.children@) == node@.children,
        decreases n - i,
    {
        proof {
            lemma_doc_children_view(node.children@);
            lemma_docs_size_index(node.children@, i as int);
            assert(node@.children.skip(i as int).drop_first() =~= node@.children.skip(i + 1));
            assert(node@.children.skip(i as int)[0] == node@.children[i as int]);
        }
        let child = &node.children[i];
        match child.style.display {
            Display::Block => {
                if let Option::Some(child_box) = build_layout_tree(child) {
                    // A block child of an inline box stays a direct child; see above.
                    layout_box.add_child(child_box);
                }
            },
            Display::Inline => {
                if let Option::Some(child_box) = build_layout_tree(child) {
                    layout_box.add_child_inline(child_box);
                }
            },
            Display::DisplayNone => {},
        }
        i = i + 1;
    }
    proof {
        assert(node@.children.skip(n as int) =~= Seq::<DocNodeView>::empty());
    }
    Option::Some(layout_box)
}

/// The containing block a viewport of the given size seeds layout with:
/// the window rectangle at the origin, with no padding, border or margin.
pub open spec fn spec_viewport(width: int, height: int) -> Dimensions {
    Dimensions {
        content: Rect { start_x: 0, start_y: 0, width: width as i64, height: height as i64 },
        ..Dimensions::spec_zero()
    }
}

/// Given what should be the root of a layout tree, perform a layout with the
/// dimensions of the window.  Mapping the result to device pixels with the scale
/// factor, via `scaled_by`, is the caller's final step before painting or dumping.
pub fn global_layout(layout_tree: LayoutBox, inner_window_width: i64, inner_window_height: i64) -> (
    r: LayoutBox)
    ensures
        r@ == spec_layout(
            layout_tree@,
            spec_viewport(inner_window_width as int, inner_window_height as int),
        ),
{
    layout_tree.layout(
        Dimensions {
            content: Rect {
                start_x: 0,
                start_y: 0,
                width: inner_window_width,
                height: inner_window_height,
            },
            padding: Default::default(),
            border: Default::default(),
            margin: Default::default(),
        },
    )
}

/// The logical directions of a writing mode.
#[derive(Clone, Copy, Debug, PartialEq, Eq, Structural)]
pub enum LogicalDirection {
    BlockStart,
    BlockEnd,
    InlineStart,
    InlineEnd,
}

/// The box-model component an edge value belongs to.
#[derive(Clone, Copy, Debug, PartialEq, Eq, Structural)]
pub enum BoxComponent {
    Border,
    Margin,
    Padding,
}

/// Behavior necessary for dumping the layout tree, used in layout dumps and
/// debugging.  Implemented by container-style entities, such as members of the
/// layout tree, which format their members via `DumpLayoutFormat`.
pub trait DumpLayout {
    /// The exact text the dump renders, as a sequence of characters.
    spec fn spec_dump_layout(&self, indent_spaces: nat, verbose: bool) -> Seq<char>;

    fn dump_layout(&self, indent_spaces: usize, verbose: bool) -> (r: String)
        ensures
            r@ == self.spec_dump_layout(indent_spaces as nat, verbose);
}

/// Behavior necessary for formatting one's data in preparation for a layout
/// tree dump.
pub trait DumpLayoutFormat {
    /// The exact text the formatter renders, as a sequence of characters.
    spec fn spec_dump_layout_format(&self) -> Seq<char>;

    fn dump_layout_format(&self) -> (r: String)
        ensures
            r@ == self.spec_dump_layout_format();
}

} // verus!
