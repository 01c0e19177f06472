use vstd::prelude::*;
use vstd::std_specs::cmp::PartialEqSpec;
use vstd::string::StringExecFns;

use crate::geometry::{Point, Rectangle};
use crate::graphics::{Color, DrawCall, DrawRecord, HorizontalAlignment, MouseCursor,
    VerticalAlignment};
use crate::hasher::{FeedItem, Hasher};
use crate::input::{ButtonState, Event, MouseButton};
use crate::layout::Layout;
use crate::node::{Content, Measure, Node};
use crate::style::{Align, Direction, Dimension, Style};
use crate::text;
use crate::text::Text;
use crate::widget::Widget;

verus! {

/// The selectable-choice drawing capability a concrete backend implements:
/// one indicator plus the whole widget's bounds, the selection flag, and the
/// pointer position; the backend decides the cursor affordance.
pub trait Renderer: DrawRecord {
    /// The cursor affordance this backend chooses for an indicator call: a
    /// pure function of the call's arguments, so that drawing is idempotent
    /// frame after frame.
    spec fn affordance(
        is_selected: bool,
        bounds: Rectangle,
        label_bounds: Rectangle,
        cursor_position: Point,
    ) -> MouseCursor;

    /// Draws a selectable-choice indicator, recording the call and
    /// returning this backend's affordance for it.
    fn draw(
        &mut self,
        is_selected: bool,
        bounds: Rectangle,
        label_bounds: Rectangle,
        cursor_position: Point,
    ) -> (cursor: MouseCursor)
        ensures
            final(self).calls() == old(self).calls().push(
                DrawCall::Radio { is_selected, bounds, label_bounds, cursor_position },
            ),
            cursor == Self::affordance(is_selected, bounds, label_bounds, cursor_position),
    ;
}

/// A selectable-choice control: an indicator box plus a text label. It holds
/// immutable display state and the action value to emit on activation;
/// selection state lives in the caller's model and is only reflected at
/// construction time.
pub struct Radio<M> {
    pub is_selected: bool,
    pub on_click: M,
    pub label: String,
}

/// The style of the node a selectable-choice control declares: an
/// unconstrained row with its indicator and label centered on the cross
/// axis, fifteen units apart.
pub open spec fn radio_node_style() -> Style {
    Style {
        width: Dimension::Auto,
        height: Dimension::Auto,
        direction: Direction::Row,
        align_items: Align::Center,
        spacing: 15,
    }
}

/// The style of the indicator box inside a selectable-choice control's node:
/// a fixed 28-by-28 childless box.
pub open spec fn radio_indicator_style() -> Style {
    Style {
        width: Dimension::Points(28),
        height: Dimension::Points(28),
        direction: Direction::Column,
        align_items: Align::Start,
        spacing: 0,
    }
}

/// The bounds a selectable-choice control draws its label at: the label
/// child's resolved bounds, shifted up two units.
pub open spec fn radio_text_bounds(b: Rectangle) -> Rectangle {
    Rectangle { x: b.x, y: (b.y - 2) as i64, width: b.width, height: b.height }
}

/// The two backend calls one draw pass of a selectable-choice control
/// issues, in order: the label through the text capability, at the default
/// size, in white, anchored left and top, against the shifted label child's
/// bounds; then the indicator through the selectable-choice capability,
/// handed the selection flag, the indicator child's bounds, the whole
/// widget's bounds, and the pointer position.
pub open spec fn radio_draw_calls<M>(r: Radio<M>, layout: Layout, cursor: Point) -> Seq<
    DrawCall,
> {
    seq![
        DrawCall::Text {
            content: r.label@,
            size: crate::text::DEFAULT_TEXT_SIZE as int,
            color: Color::white_spec(),
            horizontal_alignment: HorizontalAlignment::Left,
            vertical_alignment: VerticalAlignment::Top,
            bounds: radio_text_bounds(layout.children@[1].bounds),
        },
        DrawCall::Radio {
            is_selected: r.is_selected,
            bounds: layout.children@[0].bounds,
            label_bounds: layout.bounds,
            cursor_position: cursor,
        },
    ]
}

/// The messages a selectable-choice control emits for one event: exactly its
/// action when the primary button transitions to pressed with the pointer
/// inside the widget's bounds (edges inclusive), and nothing otherwise.
pub open spec fn radio_emits<M>(r: Radio<M>, event: Event, layout: Layout, cursor: Point) -> Seq<
    M,
> {
    if event == (Event::MouseInput {
        state: ButtonState::Pressed,
        button: MouseButton::Left,
    }) && layout.bounds.spec_contains(cursor) {
        seq![r.on_click]
    } else {
        Seq::empty()
    }
}

/// The data a selectable-choice control feeds the structural hash: its
/// label, which alone decides its layout requirements; the selection flag
/// and the action only affect drawing and dispatch.
pub open spec fn radio_feed<M>(r: Radio<M>) -> Seq<FeedItem> {
    seq![FeedItem::Label(r.label@)]
}

/// Law: structural hash stability. Two selectable-choice controls feed the
/// structural hash the same data exactly when their labels agree; the
/// selection flag and the bound action do not affect the feed.
pub proof fn lemma_radio_hash_stability<M>(a: Radio<M>, b: Radio<M>)
    ensures
        radio_feed(a) == radio_feed(b) <==> a.label@ == b.label@,
{
    if a.label@ == b.label@ {
        assert(radio_feed(a) =~= radio_feed(b));
    }
    if radio_feed(a) == radio_feed(b) {
        assert(radio_feed(a)[0] == radio_feed(b)[0]);
    }
}

impl<M> Radio<M> {
    /// Creates a selectable-choice control from the value it stands for, its
    /// label, the currently selected value, and the function that turns the
    /// value into the message emitted on activation. The control reports
    /// itself selected exactly when the candidate value equals the selected
    /// one.
    pub fn new<V: Eq + Copy + PartialEqSpec, F: Fn(V) -> M>(
        value: V,
        label: &str,
        selected: Option<V>,
        f: F,
    ) -> (r: Self)
        requires
            call_requires(f, (value,)),
        ensures
            r.label@ == label@,
            call_ensures(f, (value,), r.on_click),
            V::obeys_eq_spec() ==> r.is_selected == (match selected {
                Option::Some(s) => value.eq_spec(&s),
                Option::None => false,
            }),
    {
        let is_selected = match selected {
            Option::Some(s) => value == s,
            Option::None => false,
        };
        let on_click = f(value);
        Radio { is_selected, on_click, label: String::from_str(label) }
    }

    /// A selectable-choice control's layout requirements: an unconstrained
    /// row node holding a fixed 28-by-28 indicator box and the measured
    /// label, centered on the cross axis, fifteen units apart.
    pub fn node<R: text::Renderer>(&self, renderer: &R) -> (node: Node)
        ensures
            node.wf(),
            node.style == radio_node_style(),
            node.content is Children,
            node.content->Children_0@.len() == 2,
            node.content->Children_0@[0].style == radio_indicator_style(),
            node.content->Children_0@[0].child_count() == 0,
            node.content->Children_0@[1] == (Node {
                style: Style::default_spec(),
                content: Content::Measure(Measure::Exact(renderer.metrics(self.label@))),
            }),
    {
        let indicator = Node::new(
            Style {
                width: Dimension::Points(28),
                height: Dimension::Points(28),
                direction: Direction::Column,
                align_items: Align::Start,
                spacing: 0,
            },
            Vec::new(),
        );
        let label = Text::new(self.label.as_str()).node(renderer);
        let style = Style {
            width: Dimension::Auto,
            height: Dimension::Auto,
            direction: Direction::Row,
            align_items: Align::Center,
            spacing: 15,
        };
        let mut children: Vec<Node> = Vec::new();
        children.push(indicator);
        children.push(label);
        let node = Node::new(style, children);
        proof {
            assert(crate::node::nodes_wf(node.content->Children_0@));
        }
        node
    }

    /// Feeds the label to the structural hash accumulator.
    pub fn hash(&self, state: &mut Hasher)
        ensures
            final(state)@ == old(state)@ + radio_feed(*self),
    {
        state.write_str(self.label.as_str());
        proof {
            assert(state@ =~= old(state)@ + radio_feed(*self));
        }
    }
}

impl<M: Copy> Radio<M> {
    /// Appends the bound action exactly when the primary button transitions
    /// to pressed with the pointer inside this widget's bounds.
    pub fn on_event(
        &self,
        event: Event,
        layout: &Layout,
        cursor_position: Point,
        messages: &mut Vec<M>,
    )
        requires
            layout.wf(),
        ensures
            final(messages)@ == old(messages)@ + radio_emits(*self, event, *layout,
                cursor_position),
    {
        match event {
            Event::MouseInput { state: ButtonState::Pressed, button: MouseButton::Left } => {
                if layout.bounds().contains(cursor_position) {
                    messages.push(self.on_click);
                } else {
                    proof {
                        assert(messages@ =~= messages@ + Seq::<M>::empty());
                    }
                }
            },
            _ => {
                proof {
                    assert(messages@ =~= messages@ + Seq::<M>::empty());
                }
            },
        }
    }

    /// Draws the label through the text capability and the indicator through
    /// the selectable-choice capability, returning the backend's cursor
    /// affordance.
    pub fn draw<R: text::Renderer + Renderer>(
        &self,
        renderer: &mut R,
        layout: &Layout,
        cursor_position: Point,
    ) -> (cursor: MouseCursor)
        requires
            layout.children@.len() == 2,
            layout.wf(),
        ensures
            final(renderer).calls() == old(renderer).calls() + radio_draw_calls(
                *self,
                *layout,
                cursor_position,
            ),
            cursor == R::affordance(
                self.is_selected,
                layout.children@[0].bounds,
                layout.bounds,
                cursor_position,
            ),
    {
        let children = layout.children();
        proof {
            assert(layout.children@[1].wf());
        }
        let mut text_bounds = children[1].bounds();
        text_bounds.y = text_bounds.y - 2;
        text::Renderer::draw(
            renderer,
            self.label.as_str(),
            text::DEFAULT_TEXT_SIZE,
            crate::graphics::Color::white(),
            crate::graphics::HorizontalAlignment::Left,
            crate::graphics::VerticalAlignment::Top,
            text_bounds,
        );
        let cursor = Renderer::draw(renderer, self.is_selected, children[0].bounds(),
            layout.bounds(), cursor_position);
        proof {
            assert(renderer.calls() =~= old(renderer).calls() + radio_draw_calls(
                *self,
                *layout,
                cursor_position,
            ));
        }
        cursor
    }
}

impl<M: Copy, R: text::Renderer + Renderer> Widget<M, R> for Radio<M> {
    open spec fn wf(&self) -> bool {
        true
    }

    open spec fn models(&self, node: Node) -> bool {
        &&& node.style == radio_node_style()
        &&& node.content is Children
        &&& node.content->Children_0@.len() == 2
        &&& node.content->Children_0@[0].style == radio_indicator_style()
        &&& node.content->Children_0@[0].child_count() == 0
        &&& node.content->Children_0@[1].style == Style::default_spec()
        &&& node.content->Children_0@[1].content is Measure
    }

    open spec fn compat(&self, layout: Layout) -> bool {
        layout.children@.len() == 2
    }

    open spec fn emits(&self, event: Event, layout: Layout, cursor: Point) -> Seq<M> {
        radio_emits(*self, event, layout, cursor)
    }

    open spec fn feed(&self) -> Seq<FeedItem> {
        radio_feed(*self)
    }

    open spec fn draws(&self, layout: Layout, cursor: Point) -> Seq<DrawCall> {
        radio_draw_calls(*self, layout, cursor)
    }

    open spec fn chooses(&self, layout: Layout, cursor: Point) -> MouseCursor {
        R::affordance(self.is_selected, layout.children@[0].bounds, layout.bounds, cursor)
    }

    fn node(&self, renderer: &R) -> (node: Node) {
        self.node(renderer)
    }

    fn on_event(&self, event: Event, layout: &Layout, cursor_position: Point, messages: &mut Vec<
        M,
    >) {
        self.on_event(event, layout, cursor_position, messages)
    }

    fn draw(&self, renderer: &mut R, layout: &Layout, cursor_position: Point) -> (cursor:
        MouseCursor) {
        self.draw(renderer, layout, cursor_position)
    }

    fn hash(&self, state: &mut Hasher) {
        self.hash(state)
    }
}

} // verus!
