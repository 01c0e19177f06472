use ui_core::engine::resolve;
use ui_core::geometry::{Number, Size, COORD_LIMIT};
use ui_core::node::{Content, Measure, Node};
use ui_core::style::{Align, Dimension, Direction, Style};

fn fixed_leaf(width: i64, height: i64) -> Node {
    Node::with_measure(Style::new(), Measure::Exact(Size { width, height }))
}

fn row_style(spacing: i64, align: Align) -> Style {
    let mut style = Style::new();
    style.direction = Direction::Row;
    style.spacing = spacing;
    style.align_items = align;
    style
}

fn column_style(spacing: i64) -> Style {
    let mut style = Style::new();
    style.direction = Direction::Column;
    style.spacing = spacing;
    style
}

fn undefined() -> Size<Number> {
    Size::undefined()
}

#[test]
fn resolve_mirrors_child_count_and_order() {
    let children = vec![fixed_leaf(10, 5), fixed_leaf(20, 6), fixed_leaf(30, 7)];
    let node = Node::new(row_style(0, Align::Start), children);
    let layout = resolve(&node, undefined());
    assert_eq!(layout.children.len(), 3);
    assert_eq!(layout.children[0].bounds.width, 10);
    assert_eq!(layout.children[1].bounds.width, 20);
    assert_eq!(layout.children[2].bounds.width, 30);
    assert_eq!(layout.children[0].children.len(), 0);
}

#[test]
fn resolve_mirrors_shape_recursively() {
    let inner = Node::new(column_style(0), vec![fixed_leaf(1, 1), fixed_leaf(2, 2)]);
    let node = Node::new(row_style(0, Align::Start), vec![inner, fixed_leaf(3, 3)]);
    let layout = resolve(&node, undefined());
    assert_eq!(layout.children.len(), 2);
    assert_eq!(layout.children[0].children.len(), 2);
    assert_eq!(layout.children[1].children.len(), 0);
}

#[test]
fn with_measure_yields_leaf_whatever_the_style() {
    let styles = vec![
        Style::new(),
        row_style(42, Align::Center),
        column_style(7),
    ];
    for style in styles {
        let node = Node::with_measure(style, Measure::Exact(Size { width: 9, height: 9 }));
        match node.content {
            Content::Children(_) => panic!("a measured node must own no children"),
            Content::Measure(_) => {}
        }
        let layout = resolve(&node, undefined());
        assert_eq!(layout.children.len(), 0);
    }
}

#[test]
fn row_stacks_children_with_spacing() {
    let node = Node::new(
        row_style(15, Align::Start),
        vec![fixed_leaf(28, 28), fixed_leaf(64, 20)],
    );
    let layout = resolve(
        &node,
        Size { width: Number::Defined(200), height: Number::Undefined },
    );
    // The row is auto-sized: children stacked with one gap.
    assert_eq!(layout.bounds.width, 28 + 15 + 64);
    assert_eq!(layout.bounds.height, 28);
    assert_eq!(layout.children[0].bounds.x, 0);
    assert_eq!(layout.children[1].bounds.x, 28 + 15);
}

#[test]
fn column_stacks_children_vertically() {
    let node = Node::new(column_style(4), vec![fixed_leaf(10, 8), fixed_leaf(6, 12)]);
    let layout = resolve(&node, undefined());
    assert_eq!(layout.bounds.width, 10);
    assert_eq!(layout.bounds.height, 8 + 4 + 12);
    assert_eq!(layout.children[0].bounds.y, 0);
    assert_eq!(layout.children[1].bounds.y, 12);
}

#[test]
fn cross_axis_alignment_centers_and_ends() {
    let node = Node::new(
        row_style(0, Align::Center),
        vec![fixed_leaf(10, 10), fixed_leaf(10, 30)],
    );
    let layout = resolve(&node, undefined());
    assert_eq!(layout.bounds.height, 30);
    assert_eq!(layout.children[0].bounds.y, 10);
    assert_eq!(layout.children[1].bounds.y, 0);

    let node = Node::new(
        row_style(0, Align::End),
        vec![fixed_leaf(10, 10), fixed_leaf(10, 30)],
    );
    let layout = resolve(&node, undefined());
    assert_eq!(layout.children[0].bounds.y, 20);
}

#[test]
fn fixed_dimensions_override_content() {
    let mut style = row_style(0, Align::Start);
    style.width = Dimension::Points(100);
    style.height = Dimension::Points(50);
    let node = Node::new(style, vec![fixed_leaf(10, 10)]);
    let layout = resolve(&node, undefined());
    assert_eq!(layout.bounds.width, 100);
    assert_eq!(layout.bounds.height, 50);
}

#[test]
fn percent_takes_share_of_definite_proposal() {
    let mut style = Style::new();
    style.width = Dimension::Percent(50);
    let node = Node::with_measure(style, Measure::Exact(Size { width: 7, height: 7 }));
    let layout = resolve(
        &node,
        Size { width: Number::Defined(200), height: Number::Undefined },
    );
    assert_eq!(layout.bounds.width, 100);
    assert_eq!(layout.bounds.height, 7);
}

#[test]
fn fill_measure_adapts_to_proposal_with_fallback() {
    let node = Node::with_measure(
        Style::new(),
        Measure::Fill(Size { width: 11, height: 13 }),
    );
    let layout = resolve(
        &node,
        Size { width: Number::Defined(90), height: Number::Undefined },
    );
    assert_eq!(layout.bounds.width, 90);
    assert_eq!(layout.bounds.height, 13);
}

#[test]
fn stacked_extent_saturates_at_the_coordinate_limit() {
    let node = Node::new(
        row_style(0, Align::Start),
        vec![
            fixed_leaf(COORD_LIMIT, 1),
            fixed_leaf(COORD_LIMIT, 1),
        ],
    );
    let layout = resolve(&node, undefined());
    assert_eq!(layout.bounds.width, COORD_LIMIT);
}

#[test]
fn empty_container_resolves_to_zero_content() {
    let node = Node::new(row_style(9, Align::Start), Vec::new());
    let layout = resolve(&node, undefined());
    assert_eq!(layout.children.len(), 0);
    assert_eq!(layout.bounds.width, 0);
    assert_eq!(layout.bounds.height, 0);
}
