//! The inline content model: the participants of an inline formatting
//! context.
//!
//! Laying these out (line boxes, baselines, text measurement) belongs to
//! a formatting-context engine this crate does not contain; the types
//! here are the data model those contexts operate over.

use vstd::prelude::*;
use crate::dimensions::Dimensions;
use crate::dom::{NodeInfo, NodeInfoView};
use crate::layout_box::LayoutBox;

verus! {

/// The shared fields of every inline-level participant: its geometry and
/// the snapshot of its generating document node.  Each variant embeds one
/// of these, so the common accessors live in one place.
#[derive(Debug)]
pub struct BaseBox {
    pub dimensions: Dimensions,
    pub node: NodeInfo,
}

impl BaseBox {
    /// A base box for the given node, with zeroed geometry.
    pub fn new(node: NodeInfo) -> (r: BaseBox)
        ensures
            r.node == node,
            r.dimensions == Dimensions::spec_zero(),
    {
        BaseBox { dimensions: Default::default(), node }
    }

    /// The node snapshot this box reads its computed style from.
    pub fn node(&self) -> (r: &NodeInfo)
        ensures
            r == &self.node,
    {
        &self.node
    }
}

/// Content that participates in inline layout: inline-level boxes and
/// text runs.
#[derive(Debug)]
pub enum InlineLevelContent {
    InlineLevelBox(InlineLevelBox),
    /// A representation of the contents of a text document node.
    TextRun(TextRun),
}

/// A box that participates in inline layout.
#[derive(Debug)]
pub enum InlineLevelBox {
    /// An inline-level box not associated with any element, such as the
    /// root inline box a block container generates for its inline
    /// content.
    AnonymousInline(AnonymousInlineBox),
    /// A non-replaced inline-level box whose contents participate in the
    /// same inline formatting context as the box itself.
    InlineBox(InlineBox),
}

/// A synthesized inline-level box with no document node of its own.
#[derive(Debug)]
pub struct AnonymousInlineBox {
    pub base: BaseBox,
    pub children: Vec<LayoutBox>,
}

/// A document-backed inline box, itself the root of a new inline
/// formatting context for its children.
#[derive(Debug)]
pub struct InlineBox {
    pub base: BaseBox,
    pub children: Vec<LayoutBox>,
}

/// The literal text of a text document node.  A leaf: the block-flow
/// algorithm never positions it on its own, and measuring it belongs to
/// a glyph and shaping collaborator.
#[derive(Debug)]
pub struct TextRun {
    pub base: BaseBox,
    /// The text contents of the node.
    pub contents: String,
}

/// The child boxes of an inline-level box, whichever variant holds them.
pub open spec fn spec_ilb_children(b: InlineLevelBox) -> Seq<LayoutBox> {
    match b {
        InlineLevelBox::AnonymousInline(aib) => aib.children@,
        InlineLevelBox::InlineBox(ib) => ib.children@,
    }
}

/// The shared base of an inline-level box, whichever variant holds it.
pub open spec fn spec_ilb_base(b: InlineLevelBox) -> BaseBox {
    match b {
        InlineLevelBox::AnonymousInline(aib) => aib.base,
        InlineLevelBox::InlineBox(ib) => ib.base,
    }
}

impl InlineLevelContent {
    /// Whether this content is a synthesized anonymous inline box.
    pub open spec fn spec_is_anonymous_inline(&self) -> bool {
        match self {
            InlineLevelContent::InlineLevelBox(ilb) => ilb.spec_is_anonymous_inline(),
            InlineLevelContent::TextRun(_) => false,
        }
    }

    #[verifier::when_used_as_spec(spec_is_anonymous_inline)]
    pub fn is_anonymous_inline(&self) -> (r: bool)
        ensures
            r == self.spec_is_anonymous_inline(),
    {
        match self {
            InlineLevelContent::InlineLevelBox(ilb) => ilb.is_anonymous_inline(),
            InlineLevelContent::TextRun(_) => false,
        }
    }
}

impl InlineLevelBox {
    /// Append a child box, into whichever variant's storage.
    pub fn add_child(&mut self, new_child: LayoutBox)
        ensures
            spec_ilb_children(*final(self)) == spec_ilb_children(*old(self)).push(new_child),
            spec_ilb_base(*final(self)) == spec_ilb_base(*old(self)),
            (*final(self)) is AnonymousInline <==> (*old(self)) is AnonymousInline,
    {
        match self {
            InlineLevelBox::AnonymousInline(aib) => aib.children.push(new_child),
            InlineLevelBox::InlineBox(ib) => ib.children.push(new_child),
        }
    }

    /// The ordered child boxes.
    pub fn children(&self) -> (r: &Vec<LayoutBox>)
        ensures
            r@ == spec_ilb_children(*self),
    {
        match self {
            InlineLevelBox::AnonymousInline(aib) => aib.children(),
            InlineLevelBox::InlineBox(ib) => ib.children(),
        }
    }

    /// Whether this box is a synthesized anonymous inline box.
    pub open spec fn spec_is_anonymous_inline(&self) -> bool {
        self is AnonymousInline
    }

    #[verifier::when_used_as_spec(spec_is_anonymous_inline)]
    pub fn is_anonymous_inline(&self) -> (r: bool)
        ensures
            r == self.spec_is_anonymous_inline(),
    {
        match self {
            InlineLevelBox::AnonymousInline(_) => true,
            InlineLevelBox::InlineBox(_) => false,
        }
    }
}

impl AnonymousInlineBox {
    /// An anonymous inline box borrowing the given node, with no children.
    pub fn new(node: NodeInfo) -> (r: Self)
        ensures
            r.base.node == node,
            r.base.dimensions == Dimensions::spec_zero(),
            r.children@ == Seq::<LayoutBox>::empty(),
    {
        let r = AnonymousInlineBox { base: BaseBox::new(node), children: Vec::new() };
        proof {
            assert(r.children@ =~= Seq::<LayoutBox>::empty());
        }
        r
    }

    /// The ordered child boxes.
    pub fn children(&self) -> (r: &Vec<LayoutBox>)
        ensures
            r == &self.children,
    {
        &self.children
    }
}

impl InlineBox {
    /// An inline box generated by the given node, with no children.
    pub fn new(node: NodeInfo) -> (r: Self)
        ensures
            r.base.node == node,
            r.base.dimensions == Dimensions::spec_zero(),
            r.children@ == Seq::<LayoutBox>::empty(),
    {
        let r = InlineBox { base: BaseBox::new(node), children: Vec::new() };
        proof {
            assert(r.children@ =~= Seq::<LayoutBox>::empty());
        }
        r
    }

    /// The ordered child boxes.
    pub fn children(&self) -> (r: &Vec<LayoutBox>)
        ensures
            r == &self.children,
    {
        &self.children
    }
}

impl TextRun {
    /// A text run for the given node holding its literal text.
    pub fn new(node: NodeInfo, contents: String) -> (r: Self)
        ensures
            r.base.node == node,
            r.base.dimensions == Dimensions::spec_zero(),
            r.contents == contents,
    {
        TextRun { base: BaseBox::new(node), contents }
    }

    /// The text contents of the node.
    pub fn contents(&self) -> (r: String)
        ensures
            r@ == self.contents@,
    {
        self.contents.clone()
    }
}

} // verus!
