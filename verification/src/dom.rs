//! A plain-value model of the styled document tree that layout consumes.
//!
//! The real document is owned outside this core; layout only ever reads a
//! node's kind, its computed style and its ordered children.  Those three
//! are modelled here directly, and a layout box keeps the kind and style
//! of its nearest non-anonymous node as a read-only snapshot.

use vstd::prelude::*;
use crate::style::ComputedStyle;

verus! {

/// The kind of a document node, as far as layout and the layout dump
/// need to tell them apart.
#[derive(Debug, PartialEq, Eq)]
pub enum NodeData {
    Document,
    DocumentFragment,
    Doctype,
    Comment,
    ProcessingInstruction,
    Text,
    /// An element, carrying its local name.
    Element(String),
}

/// The mathematical shape of a node kind: the element name as a sequence
/// of characters.
pub enum NodeDataView {
    Document,
    DocumentFragment,
    Doctype,
    Comment,
    ProcessingInstruction,
    Text,
    Element(Seq<char>),
}

impl View for NodeData {
    type V = NodeDataView;

    open spec fn view(&self) -> NodeDataView {
        match self {
            NodeData::Document => NodeDataView::Document,
            NodeData::DocumentFragment => NodeDataView::DocumentFragment,
            NodeData::Doctype => NodeDataView::Doctype,
            NodeData::Comment => NodeDataView::Comment,
            NodeData::ProcessingInstruction => NodeDataView::ProcessingInstruction,
            NodeData::Text => NodeDataView::Text,
            NodeData::Element(name) => NodeDataView::Element(name@),
        }
    }
}

impl Clone for NodeData {
    fn clone(&self) -> (r: Self)
        ensures
            r@ == self@,
    {
        match self {
            NodeData::Document => NodeData::Document,
            NodeData::DocumentFragment => NodeData::DocumentFragment,
            NodeData::Doctype => NodeData::Doctype,
            NodeData::Comment => NodeData::Comment,
            NodeData::ProcessingInstruction => NodeData::ProcessingInstruction,
            NodeData::Text => NodeData::Text,
            NodeData::Element(name) => NodeData::Element(name.clone()),
        }
    }
}

/// The part of a document node a layout box keeps hold of: its kind and
/// its computed style, without the children.
#[derive(Debug)]
pub struct NodeInfo {
    pub data: NodeData,
    pub style: ComputedStyle,
}

/// The mathematical shape of the node snapshot a layout box carries.
pub struct NodeInfoView {
    pub data: NodeDataView,
    pub style: ComputedStyle,
}

impl View for NodeInfo {
    type V = NodeInfoView;

    open spec fn view(&self) -> NodeInfoView {
        NodeInfoView { data: self.data@, style: self.style }
    }
}

impl Clone for NodeInfo {
    fn clone(&self) -> (r: Self)
        ensures
            r@ == self@,
    {
        NodeInfo { data: self.data.clone(), style: self.style }
    }
}

/// A styled document node with its ordered children.
#[derive(Debug)]
pub struct DocNode {
    pub data: NodeData,
    pub style: ComputedStyle,
    pub children: Vec<DocNode>,
}

/// The mathematical shape of a styled document node.
#[verifier::ext_equal]
pub struct DocNodeView {
    pub data: NodeDataView,
    pub style: ComputedStyle,
    pub children: Seq<DocNodeView>,
}

/// The view of a document node: the same tree with sequences for child
/// lists.
pub open spec fn doc_view(n: DocNode) -> DocNodeView
    decreases n,
{
    DocNodeView { data: n.data@, style: n.style, children: doc_children_view(n.children@) }
}

/// The views of a sequence of document nodes, in order.
pub open spec fn doc_children_view(s: Seq<DocNode>) -> Seq<DocNodeView>
    decreases s,
{
    if s.len() == 0 {
        Seq::empty()
    } else {
        seq![doc_view(s[0])] + doc_children_view(s.drop_first())
    }
}

/// `doc_children_view` maps `doc_view` over the sequence, element by
/// element.
pub proof fn lemma_doc_children_view(s: Seq<DocNode>)
    ensures
        doc_children_view(s).len() == s.len(),
        forall|i: int| 0 <= i < s.len() ==> doc_children_view(s)[i] == doc_view(s[i]),
    decreases s.len(),
{
    if s.len() > 0 {
        lemma_doc_children_view(s.drop_first());
    }
}

impl View for DocNode {
    type V = DocNodeView;

    open spec fn view(&self) -> DocNodeView {
        doc_view(*self)
    }
}


/// The number of nodes in a document tree, the termination measure of
/// the tree-building recursion.
pub open spec fn doc_size(n: DocNode) -> nat
    decreases n,
{
    1 + docs_size(n.children@)
}

pub open spec fn docs_size(s: Seq<DocNode>) -> nat
    decreases s,
{
    if s.len() == 0 {
        0
    } else {
        doc_size(s[0]) + docs_size(s.drop_first())
    }
}

/// Every node of a sequence counts no more than the whole sequence.
pub proof fn lemma_docs_size_index(s: Seq<DocNode>, i: int)
    requires
        0 <= i < s.len(),
    ensures
        doc_size(s[i]) <= docs_size(s),
    decreases s.len(),
{
    if i > 0 {
        lemma_docs_size_index(s.drop_first(), i - 1);
    }
}

impl DocNode {
    /// A node of the given kind and style with no children yet.
    pub fn new(data: NodeData, style: ComputedStyle) -> (r: DocNode)
        ensures
            r@ == (DocNodeView { data: data@, style, children: Seq::<DocNodeView>::empty() }),
    {
        let r = DocNode { data, style, children: Vec::new() };
        proof {
            assert(r@.children =~= Seq::<DocNodeView>::empty());
        }
        r
    }

    /// Append a child in document order.
    pub fn add_child(&mut self, child: DocNode)
        ensures
            final(self)@ == (DocNodeView {
                children: old(self)@.children.push(child@),
                ..old(self)@
            }),
    {
        self.children.push(child);
        proof {
            lemma_doc_children_view(self.children@);
            lemma_doc_children_view(old(self).children@);
            assert(doc_children_view(self.children@) =~= doc_children_view(
                old(self).children@,
            ).push(doc_view(child)));
            assert(self@ =~= (DocNodeView {
                children: old(self)@.children.push(child@),
                ..old(self)@
            }));
        }
    }
}

} // verus!
