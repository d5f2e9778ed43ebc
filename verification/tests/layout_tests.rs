use kosmonaut_layout::dimensions::Dimensions;
use kosmonaut_layout::dom::{DocNode, NodeData, NodeInfo};
use kosmonaut_layout::layout::{build_layout_tree, global_layout};
use kosmonaut_layout::layout_box::{BoxType, LayoutBox};
use kosmonaut_layout::length::{LengthPercentage, LengthPercentageOrAuto};
use kosmonaut_layout::rect::{EdgeSizes, Rect};
use kosmonaut_layout::style::{ComputedStyle, Display};

fn len(px: i64) -> LengthPercentageOrAuto {
    LengthPercentageOrAuto::LengthPercentage(LengthPercentage::Length(px))
}

fn block_style() -> ComputedStyle {
    ComputedStyle {
        display: Display::Block,
        ..Default::default()
    }
}

fn element(name: &str, style: ComputedStyle) -> NodeInfo {
    NodeInfo {
        data: NodeData::Element(name.to_string()),
        style,
    }
}

fn containing(width: i64, height: i64) -> Dimensions {
    Dimensions {
        content: Rect {
            start_x: 0,
            start_y: 0,
            width,
            height,
        },
        padding: Default::default(),
        border: Default::default(),
        margin: Default::default(),
    }
}

#[test]
fn auto_width_fills_containing_block() {
    let b = LayoutBox::new(BoxType::Block, element("div", block_style()));
    let b = b.layout(containing(300, 0));
    assert_eq!(b.dimensions.content.width, 300);
    assert_eq!(b.dimensions.margin.left, 0);
    assert_eq!(b.dimensions.margin.right, 0);
}

#[test]
fn over_constrained_margin_right_gives_way() {
    let style = ComputedStyle {
        width: len(100),
        margin_left: len(20),
        margin_right: len(20),
        ..block_style()
    };
    let b = LayoutBox::new(BoxType::Block, element("div", style));
    let b = b.layout(containing(120, 0));
    // underflow = 120 - 140 = -20, so margin-right becomes 20 + (-20) = 0.
    assert_eq!(b.dimensions.content.width, 100);
    assert_eq!(b.dimensions.margin.left, 20);
    assert_eq!(b.dimensions.margin.right, 0);
}

#[test]
fn auto_margins_center_the_box() {
    let style = ComputedStyle {
        width: len(100),
        margin_left: LengthPercentageOrAuto::Auto,
        margin_right: LengthPercentageOrAuto::Auto,
        ..block_style()
    };
    let b = LayoutBox::new(BoxType::Block, element("div", style));
    let b = b.layout(containing(200, 0));
    assert_eq!(b.dimensions.content.width, 100);
    assert_eq!(b.dimensions.margin.left, 50);
    assert_eq!(b.dimensions.margin.right, 50);
}

#[test]
fn negative_underflow_with_auto_width_clamps_to_zero() {
    let style = ComputedStyle {
        padding_left: LengthPercentage::Length(30),
        padding_right: LengthPercentage::Length(50),
        ..block_style()
    };
    let b = LayoutBox::new(BoxType::Block, element("div", style));
    let b = b.layout(containing(50, 0));
    // total fixed insets 80 against a containing width of 50: the width
    // clamps to zero and margin-right absorbs the remaining -30.
    assert_eq!(b.dimensions.content.width, 0);
    assert_eq!(b.dimensions.margin.right, -30);
}

#[test]
fn block_children_stack_vertically() {
    let child1 = ComputedStyle {
        height: len(10),
        ..block_style()
    };
    let child2 = ComputedStyle {
        height: len(20),
        ..block_style()
    };
    let mut parent = LayoutBox::new(BoxType::Block, element("body", block_style()));
    parent.add_child(LayoutBox::new(BoxType::Block, element("p", child1)));
    parent.add_child(LayoutBox::new(BoxType::Block, element("p", child2)));
    let parent = parent.layout(containing(100, 0));
    let first = &parent.children[0];
    let second = &parent.children[1];
    assert_eq!(first.dimensions.content.start_y, parent.dimensions.content.start_y);
    assert_eq!(
        second.dimensions.content.start_y,
        first.dimensions.content.start_y + 10
    );
    assert_eq!(parent.dimensions.content.height, 30);
}

#[test]
fn explicit_height_overrides_accumulated_height() {
    let style = ComputedStyle {
        height: len(42),
        ..block_style()
    };
    let b = LayoutBox::new(BoxType::Block, element("div", style));
    let b = b.layout(containing(100, 0));
    assert_eq!(b.dimensions.content.height, 42);
}

#[test]
fn anonymous_box_wraps_each_inline_run() {
    let mut doc = DocNode::new(NodeData::Element("body".to_string()), block_style());
    let inline_style = ComputedStyle {
        display: Display::Inline,
        ..Default::default()
    };
    doc.add_child(DocNode::new(NodeData::Element("div".to_string()), block_style()));
    doc.add_child(DocNode::new(
        NodeData::Element("span".to_string()),
        inline_style,
    ));
    doc.add_child(DocNode::new(
        NodeData::Element("span".to_string()),
        inline_style,
    ));
    doc.add_child(DocNode::new(NodeData::Element("div".to_string()), block_style()));
    let tree = build_layout_tree(&doc).expect("body generates a box");
    assert_eq!(tree.children.len(), 3);
    assert_eq!(tree.children[0].box_type, BoxType::Block);
    assert_eq!(tree.children[1].box_type, BoxType::Anonymous);
    assert_eq!(tree.children[2].box_type, BoxType::Block);
    assert_eq!(tree.children[1].children.len(), 2);
    assert_eq!(tree.children[1].children[0].box_type, BoxType::Inline);
    assert_eq!(tree.children[1].children[1].box_type, BoxType::Inline);
}

#[test]
fn display_none_subtree_generates_no_box() {
    let hidden = ComputedStyle {
        display: Display::DisplayNone,
        height: len(50),
        ..Default::default()
    };
    assert!(build_layout_tree(&DocNode::new(NodeData::Element("div".to_string()), hidden)).is_none());

    let mut doc = DocNode::new(NodeData::Element("body".to_string()), block_style());
    let visible = ComputedStyle {
        height: len(10),
        ..block_style()
    };
    doc.add_child(DocNode::new(NodeData::Element("p".to_string()), visible));
    let mut hidden_child = DocNode::new(NodeData::Element("div".to_string()), hidden);
    hidden_child.add_child(DocNode::new(NodeData::Element("p".to_string()), visible));
    doc.add_child(hidden_child);
    let tree = build_layout_tree(&doc).expect("body generates a box");
    // The hidden subtree produced no layout box at all...
    assert_eq!(tree.children.len(), 1);
    // ...and contributes zero height to the parent.
    let tree = global_layout(tree, 100, 0);
    assert_eq!(tree.dimensions.content.height, 10);
}

#[test]
fn scaled_by_two_doubles_every_field_and_one_is_identity() {
    let r = Rect {
        start_x: 1,
        start_y: 2,
        width: 3,
        height: 4,
    };
    let doubled = r.scaled_by(2);
    assert_eq!(doubled.start_x, 2);
    assert_eq!(doubled.start_y, 4);
    assert_eq!(doubled.width, 6);
    assert_eq!(doubled.height, 8);
    assert_eq!(r.scaled_by(1), r);

    let mut e = EdgeSizes {
        left: 5,
        right: 6,
        top: 7,
        bottom: 8,
    };
    e.scale_by(2);
    assert_eq!(
        e,
        EdgeSizes {
            left: 10,
            right: 12,
            top: 14,
            bottom: 16
        }
    );
}

#[test]
fn geometry_expansion_walks_the_box_levels() {
    let content = Rect {
        start_x: 10,
        start_y: 20,
        width: 100,
        height: 50,
    };
    let edges = EdgeSizes {
        left: 1,
        right: 2,
        top: 3,
        bottom: 4,
    };
    let expanded = content.expanded_by_edges(edges);
    assert_eq!(
        expanded,
        Rect {
            start_x: 9,
            start_y: 17,
            width: 103,
            height: 57
        }
    );

    let grown = content.expanded_by_rect(Rect {
        start_x: 999,
        start_y: 999,
        width: 5,
        height: 6,
    });
    assert_eq!(
        grown,
        Rect {
            start_x: 10,
            start_y: 20,
            width: 105,
            height: 56
        }
    );

    let summed = edges.expanded_by_edges(edges);
    assert_eq!(
        summed,
        EdgeSizes {
            left: 2,
            right: 4,
            top: 6,
            bottom: 8
        }
    );
}

#[test]
fn margin_box_nests_outward_from_content() {
    let d = Dimensions {
        content: Rect {
            start_x: 50,
            start_y: 50,
            width: 100,
            height: 10,
        },
        padding: EdgeSizes {
            left: 1,
            right: 1,
            top: 1,
            bottom: 1,
        },
        border: EdgeSizes {
            left: 2,
            right: 2,
            top: 2,
            bottom: 2,
        },
        margin: EdgeSizes {
            left: 4,
            right: 4,
            top: 4,
            bottom: 4,
        },
    };
    assert_eq!(d.padding_box().width, 102);
    assert_eq!(d.border_box().width, 106);
    assert_eq!(d.margin_box().width, 114);
    assert_eq!(d.margin_box().start_x, 50 - 7);
    assert_eq!(d.margin_box().height, 10 + 2 + 4 + 8);
}

#[test]
fn percentages_resolve_against_containing_width() {
    let style = ComputedStyle {
        width: LengthPercentageOrAuto::LengthPercentage(LengthPercentage::Percentage(50)),
        padding_left: LengthPercentage::Percentage(10),
        ..block_style()
    };
    let b = LayoutBox::new(BoxType::Block, element("div", style));
    let b = b.layout(containing(200, 0));
    assert_eq!(b.dimensions.content.width, 100);
    assert_eq!(b.dimensions.padding.left, 20);
}

#[test]
fn percentage_height_resolves_against_containing_height() {
    let style = ComputedStyle {
        height: LengthPercentageOrAuto::LengthPercentage(LengthPercentage::Percentage(25)),
        ..block_style()
    };
    let b = LayoutBox::new(BoxType::Block, element("div", style));
    let b = b.layout(containing(100, 400));
    assert_eq!(b.dimensions.content.height, 100);
}

#[test]
fn single_auto_margin_soaks_up_the_underflow() {
    let left_auto = ComputedStyle {
        width: len(60),
        margin_left: LengthPercentageOrAuto::Auto,
        ..block_style()
    };
    let b = LayoutBox::new(BoxType::Block, element("div", left_auto));
    let b = b.layout(containing(100, 0));
    assert_eq!(b.dimensions.margin.left, 40);
    assert_eq!(b.dimensions.margin.right, 0);

    let right_auto = ComputedStyle {
        width: len(60),
        margin_right: LengthPercentageOrAuto::Auto,
        ..block_style()
    };
    let b = LayoutBox::new(BoxType::Block, element("div", right_auto));
    let b = b.layout(containing(100, 0));
    assert_eq!(b.dimensions.margin.left, 0);
    assert_eq!(b.dimensions.margin.right, 40);
}

#[test]
fn position_accounts_for_all_left_and_top_insets() {
    let style = ComputedStyle {
        width: len(10),
        margin_left: len(1),
        margin_top: len(2),
        padding_left: LengthPercentage::Length(4),
        padding_top: LengthPercentage::Length(8),
        border_left_width: 16,
        border_top_width: 32,
        ..block_style()
    };
    let b = LayoutBox::new(BoxType::Block, element("div", style));
    let b = b.layout(containing(100, 0));
    assert_eq!(b.dimensions.content.start_x, 1 + 16 + 4);
    assert_eq!(b.dimensions.content.start_y, 2 + 32 + 8);
}

#[test]
fn global_layout_seeds_the_viewport_rectangle() {
    let style = ComputedStyle {
        height: len(7),
        ..block_style()
    };
    let tree = LayoutBox::new(BoxType::Block, element("html", style));
    let tree = global_layout(tree, 640, 0);
    assert_eq!(tree.dimensions.content.width, 640);
    assert_eq!(tree.dimensions.content.height, 7);
    assert_eq!(tree.dimensions.content.start_x, 0);
}

#[test]
fn get_inline_container_reuses_the_trailing_anonymous_box() {
    let mut parent = LayoutBox::new(BoxType::Block, element("body", block_style()));
    let inline_style = ComputedStyle {
        display: Display::Inline,
        ..Default::default()
    };
    parent.add_child_inline(LayoutBox::new(BoxType::Inline, element("span", inline_style)));
    parent.add_child_inline(LayoutBox::new(BoxType::Inline, element("b", inline_style)));
    assert_eq!(parent.children.len(), 1);
    assert_eq!(parent.children[0].box_type, BoxType::Anonymous);
    assert_eq!(parent.children[0].children.len(), 2);

    let container = parent.get_inline_container();
    assert_eq!(container.box_type, BoxType::Anonymous);

    let mut inline_parent = LayoutBox::new(BoxType::Inline, element("span", inline_style));
    let container = inline_parent.get_inline_container();
    assert_eq!(container.box_type, BoxType::Inline);
}

#[test]
fn default_style_is_the_initial_value_set() {
    let s = ComputedStyle::default();
    assert_eq!(s.display, Display::Inline);
    assert_eq!(s.width, LengthPercentageOrAuto::Auto);
    assert_eq!(s.height, LengthPercentageOrAuto::Auto);
    assert_eq!(
        s.margin_left,
        LengthPercentageOrAuto::LengthPercentage(LengthPercentage::Length(0))
    );
    assert_eq!(s.border_left_width, 0);
    assert_eq!(s.padding_left, LengthPercentage::Length(0));
}

#[test]
fn to_px_treats_auto_as_zero_and_truncates_percentages() {
    assert_eq!(LengthPercentageOrAuto::Auto.to_px(500), 0);
    assert_eq!(LengthPercentage::Length(-3).to_px(100), -3);
    assert_eq!(LengthPercentage::Percentage(33).to_px(10), 3);
    assert_eq!(LengthPercentage::Percentage(100).to_px(-50), 0);
}

#[test]
fn childless_auto_height_block_has_zero_height() {
    let b = LayoutBox::new(BoxType::Block, element("div", block_style()));
    let b = b.layout(containing(100, 0));
    assert_eq!(b.dimensions.content.height, 0);
    assert_eq!(b.children.len(), 0);
}

#[test]
fn pixel_arithmetic_saturates_at_the_representation_limit() {
    let r = Rect {
        start_x: i64::MAX,
        start_y: i64::MIN,
        width: i64::MAX,
        height: 1,
    };
    let scaled = r.scaled_by(2);
    assert_eq!(scaled.start_x, i64::MAX);
    assert_eq!(scaled.start_y, i64::MIN);
    assert_eq!(scaled.width, i64::MAX);
    assert_eq!(scaled.height, 2);

    let grown = r.expanded_by_rect(Rect {
        start_x: 0,
        start_y: 0,
        width: i64::MAX,
        height: 0,
    });
    assert_eq!(grown.width, i64::MAX);
}
