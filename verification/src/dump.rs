//! The layout-dump text format.
//!
//! One line per box, indented two spaces per tree depth.  A line is the
//! box label, then the four content-rectangle fields, space-separated:
//!
//! ```text
//! LABEL start_x start_y width height
//! ```
//!
//! With verbosity on, the margin, border and padding edges follow on the
//! same line, each group introduced by `m`, `b` or `p` and giving the
//! left, right, top and bottom values in that order.  The label of a box
//! is the all-uppercase name of its document node followed by its box
//! kind, or the bare kind for a synthesized box.  This grammar is fixed:
//! layout dumps are compared as literal text.

use vstd::prelude::*;
use vstd::string::StrSliceExecFns;
use vstd::string::StringExecFns;
use crate::dimensions::Dimensions;
use crate::dom::{NodeData, NodeDataView};
use crate::inline::{AnonymousInlineBox, InlineBox, TextRun};
use crate::layout::DumpLayout;
use crate::layout::DumpLayoutFormat;
use crate::layout_box::{box_size, box_view, boxes_size, boxes_view, lemma_boxes_size_index,
    lemma_boxes_view_index, lemma_boxes_view_len, BoxType, LayoutBox, LayoutBoxView};

verus! {

/// Relies on std's `String::push`: appends exactly the given character.
#[verifier::external_body]
fn push_char(s: &mut String, c: char)
    ensures
        final(s)@ == old(s)@.push(c),
{
    s.push(c);
}

/// The decimal digit character for one digit value.
pub open spec fn spec_digit_char(d: int) -> char {
    ((48 + d) as u8) as char
}

/// The decimal digits of a non-negative number, most significant first.
pub open spec fn spec_dec_digits(n: int) -> Seq<char>
    decreases n,
{
    if n < 10 {
        seq![spec_digit_char(if n < 0 { 0 } else { n })]
    } else {
        spec_dec_digits(n / 10).push(spec_digit_char(n % 10))
    }
}

/// The decimal rendering of a pixel value, with a leading minus sign when
/// negative.
pub open spec fn spec_px_str(x: int) -> Seq<char> {
    if x < 0 {
        seq!['-'] + spec_dec_digits(-x)
    } else {
        spec_dec_digits(x)
    }
}

/// Append the decimal digits of `n`, most significant first.
fn push_digits(s: &mut String, n: u64)
    ensures
        final(s)@ == old(s)@ + spec_dec_digits(n as int),
    decreases n,
{
    if n < 10 {
        push_char(s, (48u8 + (n as u8)) as char);
        proof {
            assert(s@ =~= old(s)@ + spec_dec_digits(n as int));
        }
    } else {
        push_digits(s, n / 10);
        push_char(s, (48u8 + ((n % 10) as u8)) as char);
        proof {
            assert(s@ =~= old(s)@ + spec_dec_digits(n as int));
        }
    }
}

/// Append the decimal rendering of a pixel value.
fn push_px(s: &mut String, x: i64)
    ensures
        final(s)@ == old(s)@ + spec_px_str(x as int),
{
    let ghost entry = s@;
    let magnitude: u64 = if x < 0 {
        (-(x as i128)) as u64
    } else {
        x as u64
    };
    if x < 0 {
        push_char(s, '-');
    }
    push_digits(s, magnitude);
    proof {
        assert(s@ =~= entry + spec_px_str(x as int));
    }
}

/// The uppercase form of one character: ASCII letters are raised, every
/// other character passes through unchanged.
pub open spec fn spec_upper_char(c: char) -> char {
    if 97 <= c as int && c as int <= 122 {
        ((c as int - 32) as u8) as char
    } else {
        c
    }
}

/// A string raised to uppercase, character by character.
pub open spec fn spec_upper(s: Seq<char>) -> Seq<char> {
    Seq::new(s.len(), |i: int| spec_upper_char(s[i]))
}

/// Raise a string to uppercase; element names are ASCII, and characters
/// outside the ASCII letters pass through unchanged.
pub fn ascii_uppercase(s: &str) -> (r: String)
    ensures
        r@ == spec_upper(s@),
{
    let n = s.unicode_len();
    let mut out = String::new();
    let mut i: usize = 0;
    while i < n
        invariant
            i <= n,
            n == s@.len(),
            out@ == spec_upper(s@).subrange(0, i as int),
        decreases n - i,
    {
        let c = s.get_char(i);
        let u = c as u32;
        let upper: char = if 97 <= u && u <= 122 {
            ((u - 32) as u8) as char
        } else {
            c
        };
        push_char(&mut out, upper);
        proof {
            assert(upper == spec_upper_char(s@[i as int]));
            assert(out@ =~= spec_upper(s@).subrange(0, i + 1));
        }
        i = i + 1;
    }
    proof {
        assert(spec_upper(s@).subrange(0, n as int) =~= spec_upper(s@));
    }
    out
}

/// The dump label of a node kind: a fixed uppercase word, or the
/// uppercased element name.
pub open spec fn spec_node_label(d: NodeDataView) -> Seq<char> {
    match d {
        NodeDataView::Comment => "COMMENT"@,
        NodeDataView::Document => "DOCUMENT"@,
        NodeDataView::Doctype => "DOCTYPE"@,
        NodeDataView::DocumentFragment => "DOCUMENT_FRAGMENT"@,
        NodeDataView::Element(name) => spec_upper(name),
        NodeDataView::Text => "TEXT"@,
        NodeDataView::ProcessingInstruction => "PROCESSING_INSTRUCTION"@,
    }
}

impl DumpLayoutFormat for NodeData {
    open spec fn spec_dump_layout_format(&self) -> Seq<char> {
        spec_node_label(self@)
    }

    fn dump_layout_format(&self) -> (r: String) {
        match self {
            NodeData::Comment => String::from_str("COMMENT"),
            NodeData::Document => String::from_str("DOCUMENT"),
            NodeData::Doctype => String::from_str("DOCTYPE"),
            NodeData::DocumentFragment => String::from_str("DOCUMENT_FRAGMENT"),
            NodeData::Element(name) => ascii_uppercase(name.as_str()),
            NodeData::Text => String::from_str("TEXT"),
            NodeData::ProcessingInstruction => String::from_str("PROCESSING_INSTRUCTION"),
        }
    }
}

impl DumpLayoutFormat for i64 {
    /// A pixel value renders as its decimal digits.
    open spec fn spec_dump_layout_format(&self) -> Seq<char> {
        spec_px_str(*self as int)
    }

    fn dump_layout_format(&self) -> (r: String) {
        let mut out = String::new();
        push_px(&mut out, *self);
        out
    }
}

impl DumpLayoutFormat for AnonymousInlineBox {
    /// Anonymous boxes are not generated by an element of the document,
    /// so the label is the bare kind.
    open spec fn spec_dump_layout_format(&self) -> Seq<char> {
        "AnonymousInlineBox"@
    }

    fn dump_layout_format(&self) -> (r: String) {
        String::from_str("AnonymousInlineBox")
    }
}

/// A node label followed by a box-kind word, with the space dropped when
/// the label is empty.
pub open spec fn spec_labelled_kind(label: Seq<char>, kind: Seq<char>) -> Seq<char> {
    if label.len() == 0 {
        kind
    } else {
        label + " "@ + kind
    }
}

impl DumpLayoutFormat for InlineBox {
    open spec fn spec_dump_layout_format(&self) -> Seq<char> {
        spec_labelled_kind(spec_node_label(self.base.node@.data), "InlineBox"@)
    }

    fn dump_layout_format(&self) -> (r: String) {
        let mut label = self.base.node.data.dump_layout_format();
        if label.as_str().unicode_len() == 0 {
            String::from_str("InlineBox")
        } else {
            label.append(" ");
            label.append("InlineBox");
            proof {
                assert(label@ =~= self.spec_dump_layout_format());
            }
            label
        }
    }
}

impl DumpLayoutFormat for TextRun {
    open spec fn spec_dump_layout_format(&self) -> Seq<char> {
        spec_labelled_kind(spec_node_label(self.base.node@.data), "TextRun"@)
    }

    fn dump_layout_format(&self) -> (r: String) {
        let mut label = self.base.node.data.dump_layout_format();
        if label.as_str().unicode_len() == 0 {
            String::from_str("TextRun")
        } else {
            label.append(" ");
            label.append("TextRun");
            proof {
                assert(label@ =~= self.spec_dump_layout_format());
            }
            label
        }
    }
}

impl DumpLayoutFormat for LayoutBox {
    /// A block or inline box is labelled with its node's name and kind;
    /// an anonymous box with the bare kind.
    open spec fn spec_dump_layout_format(&self) -> Seq<char> {
        match self.box_type {
            BoxType::Block => spec_labelled_kind(spec_node_label(self.node@.data), "Block"@),
            BoxType::Inline => spec_labelled_kind(spec_node_label(self.node@.data), "Inline"@),
            BoxType::Anonymous => "Anonymous"@,
        }
    }

    fn dump_layout_format(&self) -> (r: String) {
        let kind = match self.box_type {
            BoxType::Block => "Block",
            BoxType::Inline => "Inline",
            BoxType::Anonymous => {
                return String::from_str("Anonymous");
            },
        };
        let mut label = self.node.data.dump_layout_format();
        if label.as_str().unicode_len() == 0 {
            String::from_str(kind)
        } else {
            label.append(" ");
            label.append(kind);
            proof {
                assert(label@ =~= self.spec_dump_layout_format());
            }
            label
        }
    }
}

/// `n` spaces of indentation.
pub open spec fn spec_spaces(n: int) -> Seq<char>
    decreases n,
{
    if n <= 0 {
        Seq::empty()
    } else {
        spec_spaces(n - 1).push(' ')
    }
}

/// The edge values of one group in dump order: left, right, top, bottom.
pub open spec fn spec_edges_dump(tag: Seq<char>, left: int, right: int, top: int, bottom: int) -> Seq<
    char,
> {
    " "@ + tag + " "@ + spec_px_str(left) + " "@ + spec_px_str(right) + " "@ + spec_px_str(top)
        + " "@ + spec_px_str(bottom)
}

/// One dump line for a box with the given label and dimensions, without
/// its trailing newline.
pub open spec fn spec_box_line(label: Seq<char>, d: Dimensions, verbose: bool) -> Seq<char> {
    let head = label + " "@ + spec_px_str(d.content.start_x as int) + " "@ + spec_px_str(
        d.content.start_y as int,
    ) + " "@ + spec_px_str(d.content.width as int) + " "@ + spec_px_str(d.content.height as int);
    if verbose {
        head + spec_edges_dump(
            "m"@,
            d.margin.left as int,
            d.margin.right as int,
            d.margin.top as int,
            d.margin.bottom as int,
        ) + spec_edges_dump(
            "b"@,
            d.border.left as int,
            d.border.right as int,
            d.border.top as int,
            d.border.bottom as int,
        ) + spec_edges_dump(
            "p"@,
            d.padding.left as int,
            d.padding.right as int,
            d.padding.top as int,
            d.padding.bottom as int,
        )
    } else {
        head
    }
}

/// The label `spec_dump_layout_format` gives a box, stated over its view.
pub open spec fn spec_box_label(b: LayoutBoxView) -> Seq<char> {
    match b.box_type {
        BoxType::Block => spec_labelled_kind(spec_node_label(b.node.data), "Block"@),
        BoxType::Inline => spec_labelled_kind(spec_node_label(b.node.data), "Inline"@),
        BoxType::Anonymous => "Anonymous"@,
    }
}

/// The next indentation level: two spaces deeper, held at the counter's
/// limit for trees deeper than the address space could ever hold.
pub open spec fn spec_next_indent(indent: int) -> int {
    if indent + 2 > usize::MAX {
        indent
    } else {
        indent + 2
    }
}

/// The dump of a whole box subtree: the box's own line, then each child
/// two spaces deeper.
pub open spec fn spec_dump_box(b: LayoutBoxView, indent: int, verbose: bool) -> Seq<char>
    decreases b, 1int,
{
    spec_spaces(indent) + spec_box_line(spec_box_label(b), b.dimensions, verbose) + "\n"@
        + spec_dump_boxes(b.children, spec_next_indent(indent), verbose)
}

pub open spec fn spec_dump_boxes(cs: Seq<LayoutBoxView>, indent: int, verbose: bool) -> Seq<char>
    decreases cs, 9int,
{
    if cs.len() == 0 {
        Seq::empty()
    } else {
        spec_dump_box(cs[0], indent, verbose) + spec_dump_boxes(cs.drop_first(), indent, verbose)
    }
}

/// Append `n` spaces.
fn push_spaces(s: &mut String, n: usize)
    ensures
        final(s)@ == old(s)@ + spec_spaces(n as int),
    decreases n,
{
    if n > 0 {
        push_spaces(s, n - 1);
        push_char(s, ' ');
        proof {
            assert(s@ =~= old(s)@ + spec_spaces(n as int));
        }
    } else {
        proof {
            assert(s@ =~= old(s)@ + spec_spaces(n as int));
        }
    }
}

/// Append one edge group: its tag and the four values.
fn push_edges(out: &mut String, tag: &str, left: i64, right: i64, top: i64, bottom: i64)
    ensures
        final(out)@ == old(out)@ + spec_edges_dump(
            tag@,
            left as int,
            right as int,
            top as int,
            bottom as int,
        ),
{
    let ghost entry = out@;
    out.append(" ");
    out.append(tag);
    out.append(" ");
    push_px(out, left);
    out.append(" ");
    push_px(out, right);
    out.append(" ");
    push_px(out, top);
    out.append(" ");
    push_px(out, bottom);
    proof {
        assert(out@ =~= entry + spec_edges_dump(
            tag@,
            left as int,
            right as int,
            top as int,
            bottom as int,
        ));
    }
}

/// Append one box's dump line, without indentation or newline.
#[verifier::rlimit(60)]
fn push_box_line(out: &mut String, b: &LayoutBox, verbose: bool)
    ensures
        final(out)@ == old(out)@ + spec_box_line(spec_box_label(b@), b.dimensions, verbose),
{
    let ghost entry = out@;
    let label = b.dump_layout_format();
    out.append(label.as_str());
    out.append(" ");
    push_px(out, b.dimensions.content.start_x);
    out.append(" ");
    push_px(out, b.dimensions.content.start_y);
    out.append(" ");
    push_px(out, b.dimensions.content.width);
    out.append(" ");
    push_px(out, b.dimensions.content.height);
    if verbose {
        push_edges(
            out,
            "m",
            b.dimensions.margin.left,
            b.dimensions.margin.right,
            b.dimensions.margin.top,
            b.dimensions.margin.bottom,
        );
        push_edges(
            out,
            "b",
            b.dimensions.border.left,
            b.dimensions.border.right,
            b.dimensions.border.top,
            b.dimensions.border.bottom,
        );
        push_edges(
            out,
            "p",
            b.dimensions.padding.left,
            b.dimensions.padding.right,
            b.dimensions.padding.top,
            b.dimensions.padding.bottom,
        );
    }
    proof {
        assert(out@ =~= entry + spec_box_line(spec_box_label(b@), b.dimensions, verbose));
    }
}

/// Append the dump of one box subtree.
#[verifier::rlimit(60)]
fn push_dump_box(out: &mut String, b: &LayoutBox, indent: usize, verbose: bool)
    ensures
        final(out)@ == old(out)@ + spec_dump_box(b@, indent as int, verbose),
    decreases box_size(*b), 0int,
{
    let ghost entry = out@;
    push_spaces(out, indent);
    push_box_line(out, b, verbose);
    push_char(out, '\n');
    let next = if indent <= usize::MAX - 2 {
        indent + 2
    } else {
        indent
    };
    proof {
        assert(b.children@.skip(0) =~= b.children@);
        assert(boxes_size(b.children@) < box_size(*b));
    }
    push_dump_children(out, &b.children, 0, next, verbose);
    proof {
        assert(boxes_view(b.children@).skip(0) =~= boxes_view(b.children@));
        reveal_strlit("\n");
        assert("\n"@ =~= seq!['\n']);
        assert(out@ =~= entry + spec_dump_box(b@, indent as int, verbose));
    }
}

/// Append the dumps of the children from position `i` on.
fn push_dump_children(out: &mut String, cs: &Vec<LayoutBox>, i: usize, indent: usize, verbose: bool)
    requires
        i <= cs@.len(),
    ensures
        final(out)@ == old(out)@ + spec_dump_boxes(
            boxes_view(cs@).skip(i as int),
            indent as int,
            verbose,
        ),
    decreases boxes_size(cs@.skip(i as int)), 1int,
{
    proof {
        lemma_boxes_view_len(cs@);
    }
    if i < cs.len() {
        proof {
            lemma_boxes_view_index(cs@, i as int);
            lemma_boxes_size_index(cs@.skip(i as int), 0);
            assert(cs@.skip(i as int)[0] == cs@[i as int]);
            assert(cs@.skip(i as int).drop_first() =~= cs@.skip(i as int + 1));
            assert(boxes_size(cs@.skip(i as int)) == box_size(cs@.skip(i as int)[0]) + boxes_size(
                cs@.skip(i as int).drop_first(),
            ));
            assert(box_size(cs@[i as int]) >= 1);
        }
        let ghost entry = out@;
        push_dump_box(out, &cs[i], indent, verbose);
        push_dump_children(out, cs, i + 1, indent, verbose);
        proof {
            assert(boxes_view(cs@).skip(i as int).drop_first() =~= boxes_view(cs@).skip(
                i as int + 1,
            ));
            assert(boxes_view(cs@).skip(i as int)[0] == boxes_view(cs@)[i as int]);
            assert(out@ =~= entry + spec_dump_boxes(
                boxes_view(cs@).skip(i as int),
                indent as int,
                verbose,
            ));
        }
    } else {
        proof {
            assert(boxes_view(cs@).skip(i as int) =~= Seq::<LayoutBoxView>::empty());
        }
    }
}

impl DumpLayout for LayoutBox {
    open spec fn spec_dump_layout(&self, indent_spaces: nat, verbose: bool) -> Seq<char> {
        spec_dump_box(self@, indent_spaces as int, verbose)
    }

    /// Renders this box and its subtree in the dump grammar above.
    fn dump_layout(&self, indent_spaces: usize, verbose: bool) -> (r: String) {
        let mut out = String::new();
        push_dump_box(&mut out, self, indent_spaces, verbose);
        proof {
            assert(out@ =~= self.spec_dump_layout(indent_spaces as nat, verbose));
        }
        out
    }
}

} // verus!
