use kosmonaut_layout::cli::{is_bool_validator, str_eq, DumpLayoutVerbosity};
use kosmonaut_layout::dom::{DocNode, NodeData, NodeInfo};
use kosmonaut_layout::dump::ascii_uppercase;
use kosmonaut_layout::inline::{AnonymousInlineBox, InlineBox, InlineLevelBox, InlineLevelContent, TextRun};
use kosmonaut_layout::layout::{build_layout_tree, global_layout, DumpLayout, DumpLayoutFormat};
use kosmonaut_layout::layout_box::{BoxType, LayoutBox};
use kosmonaut_layout::length::{LengthPercentage, LengthPercentageOrAuto};
use kosmonaut_layout::style::{ComputedStyle, Display};

fn element_info(name: &str, display: Display) -> NodeInfo {
    NodeInfo {
        data: NodeData::Element(name.to_string()),
        style: ComputedStyle {
            display,
            ..Default::default()
        },
    }
}

#[test]
fn bool_validator_accepts_the_four_boolean_spellings() {
    assert!(is_bool_validator("true".to_string()).is_ok());
    assert!(is_bool_validator("false".to_string()).is_ok());
    assert!(is_bool_validator("0".to_string()).is_ok());
    assert!(is_bool_validator("1".to_string()).is_ok());
}

#[test]
fn bool_validator_rejects_with_a_message_naming_the_value() {
    let err = is_bool_validator("2".to_string()).unwrap_err();
    assert_eq!(err, "given arg '2' is not a bool value");
    assert!(is_bool_validator("TRUE".to_string()).is_err());
    assert!(is_bool_validator("".to_string()).is_err());
}

#[test]
fn str_eq_compares_contents() {
    assert!(str_eq("abc", "abc"));
    assert!(!str_eq("abc", "abd"));
    assert!(!str_eq("abc", "ab"));
    assert!(str_eq("", ""));
}

#[test]
fn verbosity_maps_to_cli_digits() {
    assert_eq!(DumpLayoutVerbosity::Verbose.to_cli_string(), "1");
    assert_eq!(DumpLayoutVerbosity::NonVerbose.to_cli_string(), "0");
}

#[test]
fn pixel_values_format_as_decimal() {
    assert_eq!(0i64.dump_layout_format(), "0");
    assert_eq!(7i64.dump_layout_format(), "7");
    assert_eq!(1234i64.dump_layout_format(), "1234");
    assert_eq!((-5i64).dump_layout_format(), "-5");
    assert_eq!((-120i64).dump_layout_format(), "-120");
}

#[test]
fn uppercase_raises_ascii_letters_only() {
    assert_eq!(ascii_uppercase("div"), "DIV");
    assert_eq!(ascii_uppercase("h1"), "H1");
    assert_eq!(ascii_uppercase("ALREADY"), "ALREADY");
    assert_eq!(ascii_uppercase(""), "");
}

#[test]
fn node_kinds_format_as_fixed_uppercase_words() {
    assert_eq!(NodeData::Comment.dump_layout_format(), "COMMENT");
    assert_eq!(NodeData::Document.dump_layout_format(), "DOCUMENT");
    assert_eq!(NodeData::Doctype.dump_layout_format(), "DOCTYPE");
    assert_eq!(
        NodeData::DocumentFragment.dump_layout_format(),
        "DOCUMENT_FRAGMENT"
    );
    assert_eq!(NodeData::Text.dump_layout_format(), "TEXT");
    assert_eq!(
        NodeData::ProcessingInstruction.dump_layout_format(),
        "PROCESSING_INSTRUCTION"
    );
    assert_eq!(
        NodeData::Element("section".to_string()).dump_layout_format(),
        "SECTION"
    );
}

#[test]
fn layout_box_labels_join_node_name_and_kind() {
    let block = LayoutBox::new(BoxType::Block, element_info("div", Display::Block));
    assert_eq!(block.dump_layout_format(), "DIV Block");
    let inline = LayoutBox::new(BoxType::Inline, element_info("span", Display::Inline));
    assert_eq!(inline.dump_layout_format(), "SPAN Inline");
    let anon = LayoutBox::new(BoxType::Anonymous, element_info("div", Display::Block));
    assert_eq!(anon.dump_layout_format(), "Anonymous");
}

#[test]
fn dump_layout_renders_one_indented_line_per_box() {
    let mut doc = DocNode::new(
        NodeData::Element("body".to_string()),
        ComputedStyle {
            display: Display::Block,
            height: LengthPercentageOrAuto::LengthPercentage(LengthPercentage::Length(30)),
            ..Default::default()
        },
    );
    doc.add_child(DocNode::new(
        NodeData::Element("div".to_string()),
        ComputedStyle {
            display: Display::Block,
            height: LengthPercentageOrAuto::LengthPercentage(LengthPercentage::Length(10)),
            ..Default::default()
        },
    ));
    let tree = build_layout_tree(&doc).expect("body generates a box");
    let tree = global_layout(tree, 100, 0);
    let dump = tree.dump_layout(0, false);
    assert_eq!(dump, "BODY Block 0 0 100 30\n  DIV Block 0 0 100 10\n");
}

#[test]
fn verbose_dump_appends_margin_border_padding() {
    let info = NodeInfo {
        data: NodeData::Element("div".to_string()),
        style: ComputedStyle {
            display: Display::Block,
            width: LengthPercentageOrAuto::LengthPercentage(LengthPercentage::Length(10)),
            margin_left: LengthPercentageOrAuto::LengthPercentage(LengthPercentage::Length(1)),
            border_top_width: 2,
            padding_right: LengthPercentage::Length(3),
            ..Default::default()
        },
    };
    let b = LayoutBox::new(BoxType::Block, info);
    let b = global_layout(b, 100, 0);
    let dump = b.dump_layout(0, true);
    assert_eq!(
        dump,
        "DIV Block 1 2 10 0 m 1 86 0 0 b 0 0 2 0 p 0 3 0 0\n"
    );
}

#[test]
fn anonymous_inline_box_starts_empty() {
    let aib = AnonymousInlineBox::new(element_info("p", Display::Block));
    assert!(aib.children().is_empty());
    assert_eq!(aib.dump_layout_format(), "AnonymousInlineBox");
}

#[test]
fn inline_level_box_routes_children_to_its_variant() {
    let mut ilb = InlineLevelBox::AnonymousInline(AnonymousInlineBox::new(element_info(
        "p",
        Display::Block,
    )));
    assert!(ilb.is_anonymous_inline());
    ilb.add_child(LayoutBox::new(
        BoxType::Inline,
        element_info("span", Display::Inline),
    ));
    assert_eq!(ilb.children().len(), 1);

    let mut ib = InlineLevelBox::InlineBox(InlineBox::new(element_info("span", Display::Inline)));
    assert!(!ib.is_anonymous_inline());
    ib.add_child(LayoutBox::new(
        BoxType::Inline,
        element_info("b", Display::Inline),
    ));
    assert_eq!(ib.children().len(), 1);
}

#[test]
fn inline_level_content_tells_anonymous_from_text() {
    let anon = InlineLevelContent::InlineLevelBox(InlineLevelBox::AnonymousInline(
        AnonymousInlineBox::new(element_info("p", Display::Block)),
    ));
    assert!(anon.is_anonymous_inline());
    let text = InlineLevelContent::TextRun(TextRun::new(
        NodeInfo {
            data: NodeData::Text,
            style: ComputedStyle::default(),
        },
        "hello".to_string(),
    ));
    assert!(!text.is_anonymous_inline());
}

#[test]
fn text_run_keeps_its_contents_and_label() {
    let run = TextRun::new(
        NodeInfo {
            data: NodeData::Text,
            style: ComputedStyle::default(),
        },
        "hello world".to_string(),
    );
    assert_eq!(run.contents(), "hello world");
    assert_eq!(run.dump_layout_format(), "TEXT TextRun");
}

#[test]
fn inline_box_label_includes_its_element_name() {
    let ib = InlineBox::new(element_info("span", Display::Inline));
    assert_eq!(ib.dump_layout_format(), "SPAN InlineBox");
}
