use ui_core::column::Column;
use ui_core::element::Element;
use ui_core::engine::resolve;
use ui_core::geometry::{Number, Point, Rectangle, Size};
use ui_core::graphics::MouseCursor;
use ui_core::hasher::Hasher;
use ui_core::input::{ButtonState, Event, MouseButton};
use ui_core::layout::Layout;
use ui_core::radio::Radio;
use ui_core::row::Row;
use ui_core::text::Text;
use ui_core::widget::Widget;

/// A test backend: text is eight units per character and twenty tall; the
/// indicator reports a pointer affordance when the cursor is inside the
/// widget's bounds, and every call is recorded.
struct TestRenderer {
    text_calls: Vec<(String, i64, Rectangle)>,
    radio_calls: Vec<(bool, Rectangle, Rectangle)>,
    sequence: Vec<&'static str>,
}

impl TestRenderer {
    fn new() -> TestRenderer {
        TestRenderer { text_calls: Vec::new(), radio_calls: Vec::new(), sequence: Vec::new() }
    }
}

// The spec members of the renderer capabilities are ghost state: they have
// no run-time meaning, so an unverified backend stubs them out.
impl ui_core::graphics::DrawRecord for TestRenderer {
    fn calls(&self) -> vstd::prelude::Seq<ui_core::graphics::DrawCall> {
        panic!("ghost state")
    }
}

impl ui_core::text::Renderer for TestRenderer {
    fn metrics(&self, _content: vstd::prelude::Seq<char>) -> Size<i64> {
        panic!("ghost state")
    }

    fn measure(&self, content: &str) -> Size<i64> {
        Size { width: 8 * content.len() as i64, height: 20 }
    }

    fn draw(
        &mut self,
        content: &str,
        size: i64,
        _color: ui_core::graphics::Color,
        _horizontal_alignment: ui_core::graphics::HorizontalAlignment,
        _vertical_alignment: ui_core::graphics::VerticalAlignment,
        bounds: Rectangle,
    ) {
        self.text_calls.push((content.to_string(), size, bounds));
        self.sequence.push("text");
    }
}

impl ui_core::radio::Renderer for TestRenderer {
    fn affordance(
        _is_selected: bool,
        _bounds: Rectangle,
        _label_bounds: Rectangle,
        _cursor_position: Point,
    ) -> MouseCursor {
        panic!("ghost state")
    }

    fn draw(
        &mut self,
        is_selected: bool,
        bounds: Rectangle,
        label_bounds: Rectangle,
        cursor_position: Point,
    ) -> MouseCursor {
        self.radio_calls.push((is_selected, bounds, label_bounds));
        self.sequence.push("radio");
        if label_bounds.contains(cursor_position) {
            MouseCursor::Pointer
        } else {
            MouseCursor::OutOfBounds
        }
    }
}

fn left_press() -> Event {
    Event::MouseInput { state: ButtonState::Pressed, button: MouseButton::Left }
}

fn left_release() -> Event {
    Event::MouseInput { state: ButtonState::Released, button: MouseButton::Left }
}

fn radio_layout(bounds: Rectangle) -> Layout {
    let indicator = Layout::new(Rectangle { x: bounds.x, y: bounds.y, width: 28, height: 28 }, Vec::new());
    let label = Layout::new(Rectangle { x: bounds.x + 43, y: bounds.y, width: 64, height: 20 }, Vec::new());
    Layout::new(bounds, vec![indicator, label])
}

#[test]
fn radio_reports_selection_by_equality() {
    for value in [1u32, 2, 3] {
        let selected = Radio::new(value, "choice", Some(value), |v: u32| v);
        assert!(selected.is_selected);
        let other = Radio::new(value, "choice", Some(value + 1), |v: u32| v);
        assert!(!other.is_selected);
        let none = Radio::new(value, "choice", None, |v: u32| v);
        assert!(!none.is_selected);
        assert_eq!(selected.on_click, value);
    }
}

#[test]
fn radio_press_inside_appends_exactly_one_message() {
    let radio = Radio::new(7u32, "choice", Some(7), |v: u32| v);
    let layout = radio_layout(Rectangle { x: 10, y: 10, width: 100, height: 40 });
    let mut messages: Vec<u32> = Vec::new();
    radio.on_event(left_press(), &layout, Point { x: 50, y: 20 }, &mut messages);
    assert_eq!(messages, vec![7]);
}

#[test]
fn radio_press_outside_appends_nothing() {
    let radio = Radio::new(7u32, "choice", Some(7), |v: u32| v);
    let layout = radio_layout(Rectangle { x: 10, y: 10, width: 100, height: 40 });
    let mut messages: Vec<u32> = Vec::new();
    radio.on_event(left_press(), &layout, Point { x: 200, y: 20 }, &mut messages);
    assert_eq!(messages, Vec::<u32>::new());
}

#[test]
fn radio_release_inside_appends_nothing() {
    let radio = Radio::new(7u32, "choice", Some(7), |v: u32| v);
    let layout = radio_layout(Rectangle { x: 10, y: 10, width: 100, height: 40 });
    let mut messages: Vec<u32> = Vec::new();
    radio.on_event(left_release(), &layout, Point { x: 50, y: 20 }, &mut messages);
    assert_eq!(messages, Vec::<u32>::new());
    radio.on_event(
        Event::CursorMoved { position: Point { x: 50, y: 20 } },
        &layout,
        Point { x: 50, y: 20 },
        &mut messages,
    );
    assert_eq!(messages, Vec::<u32>::new());
}

#[test]
fn radio_bounds_test_is_edge_inclusive() {
    let radio = Radio::new(1u32, "choice", Some(1), |v: u32| v);
    let layout = radio_layout(Rectangle { x: 10, y: 10, width: 100, height: 40 });
    let mut messages: Vec<u32> = Vec::new();
    radio.on_event(left_press(), &layout, Point { x: 110, y: 50 }, &mut messages);
    radio.on_event(left_press(), &layout, Point { x: 10, y: 10 }, &mut messages);
    assert_eq!(messages, vec![1, 1]);
    radio.on_event(left_press(), &layout, Point { x: 111, y: 50 }, &mut messages);
    assert_eq!(messages, vec![1, 1]);
}

#[test]
fn row_delegates_in_insertion_order_and_concatenates() {
    let row: Row<u32> = Row::new()
        .push(Element::Radio(Radio::new(1u32, "a", Some(1), |v: u32| v)))
        .push(Element::Radio(Radio::new(2u32, "b", Some(1), |v: u32| v)))
        .push(Element::Radio(Radio::new(3u32, "c", Some(1), |v: u32| v)));
    // Three overlapping children: every one sees the press, in order.
    let shared = Rectangle { x: 0, y: 0, width: 100, height: 100 };
    let layout = Layout::new(
        shared,
        vec![radio_layout(shared), radio_layout(shared), radio_layout(shared)],
    );
    let mut messages: Vec<u32> = Vec::new();
    row.on_event(left_press(), &layout, Point { x: 5, y: 5 }, &mut messages);
    assert_eq!(messages, vec![1, 2, 3]);
}

#[test]
fn row_node_owns_one_child_per_element_in_order() {
    let renderer = TestRenderer::new();
    let row: Row<u32> = Row::new()
        .push(Element::Column(Column::new().width(28).height(28)))
        .push(Element::Text(Text::new("b")))
        .push(Element::Radio(Radio::new(3u32, "c", Some(1), |v: u32| v)));
    let node = row.node(&renderer);
    let layout = resolve(
        &node,
        Size { width: Number::Undefined, height: Number::Undefined },
    );
    assert_eq!(layout.children.len(), 3);
    assert_eq!(layout.children[0].bounds.width, 28);
    assert_eq!(layout.children[1].bounds.width, 8);
    assert_eq!(layout.children[2].children.len(), 2);
}

#[test]
fn row_of_box_and_label_resolves_like_the_scenario() {
    let renderer = TestRenderer::new();
    let row: Row<u32> = Row::new()
        .spacing(15)
        .push(Element::Column(Column::new().width(28).height(28)))
        .push(Element::Text(Text::new("Option A")));
    let node = row.node(&renderer);
    let layout = resolve(
        &node,
        Size { width: Number::Defined(200), height: Number::Undefined },
    );
    assert_eq!(layout.children.len(), 2);
    let box_bounds = layout.children[0].bounds;
    assert_eq!(box_bounds, Rectangle { x: 0, y: 0, width: 28, height: 28 });
    let text_bounds = layout.children[1].bounds;
    assert!(text_bounds.x >= 28 + 15);
    assert_eq!(text_bounds.x, 43);
    assert_eq!(text_bounds.width, 8 * 8);
    assert_eq!(text_bounds.height, 20);
}

#[test]
fn radio_node_is_box_plus_measured_label() {
    let renderer = TestRenderer::new();
    let radio = Radio::new(1u32, "Option A", Some(1), |v: u32| v);
    let node = radio.node(&renderer);
    let layout = resolve(
        &node,
        Size { width: Number::Defined(200), height: Number::Undefined },
    );
    assert_eq!(layout.children.len(), 2);
    assert_eq!(layout.children[0].bounds.width, 28);
    assert_eq!(layout.children[0].bounds.height, 28);
    assert!(layout.children[1].bounds.x >= 28 + 15);
    // The 20-tall label is centered against the 28-tall indicator.
    assert_eq!(layout.children[1].bounds.y, 4);
}

#[test]
fn radio_draw_hands_the_backend_its_bounds() {
    let mut renderer = TestRenderer::new();
    let radio = Radio::new(1u32, "Option A", Some(1), |v: u32| v);
    let node = radio.node(&renderer);
    let layout = resolve(
        &node,
        Size { width: Number::Undefined, height: Number::Undefined },
    );
    let cursor = radio.draw(&mut renderer, &layout, Point { x: 1, y: 1 });
    assert_eq!(cursor, MouseCursor::Pointer);
    assert_eq!(renderer.radio_calls.len(), 1);
    let (is_selected, indicator, full) = renderer.radio_calls[0];
    assert!(is_selected);
    assert_eq!(indicator.width, 28);
    assert_eq!(full, layout.bounds);
    assert_eq!(renderer.text_calls.len(), 1);
    assert_eq!(renderer.text_calls[0].0, "Option A");
    let cursor = radio.draw(&mut renderer, &layout, Point { x: 5000, y: 1 });
    assert_eq!(cursor, MouseCursor::OutOfBounds);
}

#[test]
fn radio_draw_shifts_the_label_bounds_up_two() {
    let mut renderer = TestRenderer::new();
    let radio = Radio::new(1u32, "Option A", Some(1), |v: u32| v);
    let node = radio.node(&renderer);
    let layout = resolve(
        &node,
        Size { width: Number::Undefined, height: Number::Undefined },
    );
    let label_child = layout.children[1].bounds;
    radio.draw(&mut renderer, &layout, Point { x: 1, y: 1 });
    // Exactly one text call, before the indicator call, at the default
    // size against the label child's bounds shifted up by two.
    assert_eq!(renderer.sequence, vec!["text", "radio"]);
    let (content, size, bounds) = renderer.text_calls[0].clone();
    assert_eq!(content, "Option A");
    assert_eq!(size, 20);
    assert_eq!(bounds.x, label_child.x);
    assert_eq!(bounds.y, label_child.y - 2);
    assert_eq!(bounds.width, label_child.width);
    assert_eq!(bounds.height, label_child.height);
}

#[test]
fn text_draw_reports_no_affordance() {
    let mut renderer = TestRenderer::new();
    let text = Text::new("abc");
    let layout = Layout::new(Rectangle { x: 0, y: 0, width: 24, height: 20 }, Vec::new());
    let cursor = text.draw(&mut renderer, &layout, Point { x: 1, y: 1 });
    assert_eq!(cursor, MouseCursor::OutOfBounds);
    assert_eq!(renderer.text_calls.len(), 1);
    assert_eq!(renderer.text_calls[0].2, layout.bounds);
}

#[test]
fn row_draw_reports_the_last_affordance_that_is_not_out_of_bounds() {
    let mut renderer = TestRenderer::new();
    let row: Row<u32> = Row::new()
        .push(Element::Radio(Radio::new(1u32, "a", Some(1), |v: u32| v)))
        .push(Element::Radio(Radio::new(2u32, "b", Some(1), |v: u32| v)));
    let left = Rectangle { x: 0, y: 0, width: 50, height: 50 };
    let right = Rectangle { x: 60, y: 0, width: 50, height: 50 };
    let layout = Layout::new(
        Rectangle { x: 0, y: 0, width: 110, height: 50 },
        vec![radio_layout(left), radio_layout(right)],
    );
    // The pointer is over the first child only: its affordance survives the
    // second child's report of nothing.
    let cursor = row.draw(&mut renderer, &layout, Point { x: 10, y: 10 });
    assert_eq!(cursor, MouseCursor::Pointer);
    let cursor = row.draw(&mut renderer, &layout, Point { x: 200, y: 200 });
    assert_eq!(cursor, MouseCursor::OutOfBounds);
    // Both children drew their two calls on both passes, in order.
    assert_eq!(renderer.sequence.len(), 8);
}

#[test]
fn identical_radios_feed_identical_hash_state() {
    let a = Radio::new(1u32, "Option A", Some(1), |v: u32| v);
    let b = Radio::new(2u32, "Option A", None, |v: u32| v + 7);
    let mut ha = Hasher::new();
    let mut hb = Hasher::new();
    a.hash(&mut ha);
    b.hash(&mut hb);
    // Selection flag and action differ; the fed data does not.
    assert_eq!(ha.tokens, hb.tokens);
}

#[test]
fn changing_only_the_label_changes_the_hash_state() {
    let a = Radio::new(1u32, "Option A", Some(1), |v: u32| v);
    let b = Radio::new(1u32, "Option B", Some(1), |v: u32| v);
    let mut ha = Hasher::new();
    let mut hb = Hasher::new();
    a.hash(&mut ha);
    b.hash(&mut hb);
    assert_ne!(ha.tokens, hb.tokens);
}

#[test]
fn row_hash_covers_layout_affecting_configuration() {
    let row_a: Row<u32> = Row::new().spacing(5).push(Element::Text(Text::new("x")));
    let row_b: Row<u32> = Row::new().spacing(5).push(Element::Text(Text::new("x")));
    let row_c: Row<u32> = Row::new().spacing(6).push(Element::Text(Text::new("x")));
    let mut ha = Hasher::new();
    let mut hb = Hasher::new();
    let mut hc = Hasher::new();
    row_a.hash(&mut ha);
    row_b.hash(&mut hb);
    row_c.hash(&mut hc);
    assert_eq!(ha.tokens, hb.tokens);
    assert_ne!(ha.tokens, hc.tokens);
}

#[test]
fn row_hash_distinguishes_dimension_kinds() {
    // Same amount under a different sizing rule must feed different data.
    let mut fixed: Row<u32> = Row::new();
    fixed.width = ui_core::style::Dimension::Points(50);
    let mut share: Row<u32> = Row::new();
    share.width = ui_core::style::Dimension::Percent(50);
    let mut hf = Hasher::new();
    let mut hs = Hasher::new();
    fixed.hash(&mut hf);
    share.hash(&mut hs);
    assert_ne!(hf.tokens, hs.tokens);
}

#[test]
fn element_wraps_a_radio_through_from() {
    let radio = Radio::new(1u32, "a", Some(1), |v: u32| v);
    let element: Element<u32> = Element::from(radio);
    match element {
        Element::Radio(r) => assert!(r.is_selected),
        _ => panic!("the wrapped widget must stay a selectable choice"),
    }
}

fn widget_node<M, R: ui_core::graphics::DrawRecord, W: Widget<M, R>>(
    widget: &W,
    renderer: &R,
) -> ui_core::node::Node {
    widget.node(renderer)
}

#[test]
fn the_widget_capability_dispatches_uniformly() {
    let renderer = TestRenderer::new();
    let text = Text::new("abc");
    let node = widget_node::<u32, TestRenderer, Text>(&text, &renderer);
    let layout = resolve(
        &node,
        Size { width: Number::Undefined, height: Number::Undefined },
    );
    assert_eq!(layout.bounds.width, 24);
    let radio = Radio::new(1u32, "abc", Some(2), |v: u32| v);
    let node = widget_node::<u32, TestRenderer, Radio<u32>>(&radio, &renderer);
    assert_eq!(resolve(&node, Size { width: Number::Undefined, height: Number::Undefined }).children.len(), 2);
}
