use vstd::prelude::*;

use crate::column::{column_feed, column_wf, Column};
use crate::engine::shape_matches;
use crate::geometry::Point;
use crate::graphics::{DrawCall, MouseCursor};
use crate::hasher::{FeedItem, Hasher};
use crate::input::Event;
use crate::layout::Layout;
use crate::node::Node;
use crate::radio;
use crate::radio::{radio_draw_calls, radio_emits, radio_feed, Radio};
use crate::row::{row_feed, row_wf, Row};
use crate::text;
use crate::text::{text_draw_call, text_feed, Text};
use crate::widget::Widget;

verus! {

/// An owning wrapper around one widget, fixing its message type, so that a
/// container can hold a sequence of heterogeneous children. A container owns
/// its elements by value; an element owns its widget by value.
pub enum Element<M> {
    Row(Row<M>),
    Column(Column<M>),
    Text(Text),
    Radio(Radio<M>),
}

/// The configuration invariant of the wrapped widget.
pub open spec fn element_wf<M>(e: Element<M>) -> bool
    decreases e,
{
    match e {
        Element::Row(w) => row_wf(w),
        Element::Column(w) => column_wf(w),
        Element::Text(_) => true,
        Element::Radio(_) => true,
    }
}

/// Every element of a sequence keeps its configuration invariant.
pub open spec fn children_wf<M>(cs: Seq<Element<M>>) -> bool
    decreases cs,
{
    forall|i: int| 0 <= i < cs.len() ==> element_wf(#[trigger] cs[i])
}

/// Whether a node tree carries an element's declared layout requirements:
/// containers own one child node per child element, in order; a text is a
/// measured leaf; a selectable-choice control owns exactly two child nodes.
pub open spec fn node_represents<M>(n: Node, e: Element<M>) -> bool
    decreases e,
{
    match e {
        Element::Row(w) => n.content is Children && nodes_represent(
            n.content->Children_0@,
            w.children@,
        ),
        Element::Column(w) => n.content is Children && nodes_represent(
            n.content->Children_0@,
            w.children@,
        ),
        Element::Text(_) => n.content is Measure,
        Element::Radio(_) => {
            &&& n.content is Children
            &&& n.content->Children_0@.len() == 2
            &&& n.content->Children_0@[0].style == crate::radio::radio_indicator_style()
            &&& n.content->Children_0@[0].child_count() == 0
            &&& n.content->Children_0@[1].content is Measure
        },
    }
}

/// One node per element, in order, each carrying its element's layout
/// requirements.
pub open spec fn nodes_represent<M>(ns: Seq<Node>, es: Seq<Element<M>>) -> bool
    decreases es,
{
    &&& ns.len() == es.len()
    &&& forall|i: int| 0 <= i < es.len() ==> node_represents(ns[i], #[trigger] es[i])
}

/// Whether a layout tree is shaped so an element can dispatch against it:
/// one child layout per child the element declared, in order, recursively.
pub open spec fn element_compat<M>(e: Element<M>, layout: Layout) -> bool
    decreases e,
{
    match e {
        Element::Row(w) => children_compat(w.children@, layout.children@),
        Element::Column(w) => children_compat(w.children@, layout.children@),
        Element::Text(_) => true,
        Element::Radio(_) => layout.children@.len() == 2,
    }
}

/// One child layout per element, in order, each compatible with its element.
pub open spec fn children_compat<M>(cs: Seq<Element<M>>, ls: Seq<Layout>) -> bool
    decreases cs,
{
    &&& ls.len() == cs.len()
    &&& forall|i: int| 0 <= i < cs.len() ==> element_compat(cs[i], #[trigger] ls[i])
}

/// The messages an element emits for one event against its resolved layout:
/// a container concatenates its children's contributions in insertion order.
pub open spec fn element_emits<M>(e: Element<M>, event: Event, layout: Layout, cursor: Point) -> Seq<
    M,
>
    decreases e, 0int,
{
    match e {
        Element::Row(w) => children_emits(
            w.children@,
            layout.children@,
            event,
            cursor,
            w.children@.len() as int,
        ),
        Element::Column(w) => children_emits(
            w.children@,
            layout.children@,
            event,
            cursor,
            w.children@.len() as int,
        ),
        Element::Text(_) => Seq::empty(),
        Element::Radio(r) => radio_emits(r, event, layout, cursor),
    }
}

/// The concatenation, in order, of the messages the first `k` children emit,
/// each against its own child layout.
pub open spec fn children_emits<M>(
    cs: Seq<Element<M>>,
    ls: Seq<Layout>,
    event: Event,
    cursor: Point,
    k: int,
) -> Seq<M>
    decreases cs, k,
{
    if k <= 0 || k > cs.len() {
        Seq::empty()
    } else {
        children_emits(cs, ls, event, cursor, k - 1) + element_emits(cs[k - 1], event, ls[k - 1],
            cursor)
    }
}

/// The data an element feeds the structural hash.
pub open spec fn element_feed<M>(e: Element<M>) -> Seq<FeedItem>
    decreases e, 1int,
{
    match e {
        Element::Row(w) => row_feed(w),
        Element::Column(w) => column_feed(w),
        Element::Text(t) => text_feed(t),
        Element::Radio(r) => radio_feed(r),
    }
}

/// The data the first `k` elements of a sequence feed the structural hash,
/// in order.
pub open spec fn children_feed<M>(cs: Seq<Element<M>>, k: int) -> Seq<FeedItem>
    decreases cs, k,
{
    if k <= 0 || k > cs.len() {
        Seq::empty()
    } else {
        children_feed(cs, k - 1) + element_feed(cs[k - 1])
    }
}

/// The backend calls, in order and with their exact arguments, that one
/// draw pass of an element issues: a container issues its children's calls
/// in insertion order and none of its own.
pub open spec fn element_draw_calls<M>(e: Element<M>, layout: Layout, cursor: Point) -> Seq<
    DrawCall,
>
    decreases e, 0int,
{
    match e {
        Element::Row(w) => children_draw_calls(
            w.children@,
            layout.children@,
            cursor,
            w.children@.len() as int,
        ),
        Element::Column(w) => children_draw_calls(
            w.children@,
            layout.children@,
            cursor,
            w.children@.len() as int,
        ),
        Element::Text(t) => seq![text_draw_call(t, layout)],
        Element::Radio(r) => radio_draw_calls(r, layout, cursor),
    }
}

/// The backend calls the first `k` children of a sequence issue, in order,
/// each against its own child layout.
pub open spec fn children_draw_calls<M>(
    cs: Seq<Element<M>>,
    ls: Seq<Layout>,
    cursor: Point,
    k: int,
) -> Seq<DrawCall>
    decreases cs, k,
{
    if k <= 0 || k > cs.len() {
        Seq::empty()
    } else {
        children_draw_calls(cs, ls, cursor, k - 1) + element_draw_calls(cs[k - 1], ls[k - 1],
            cursor)
    }
}

/// The cursor affordance one draw pass of an element reports, for a backend
/// `R`: a text reports none, a selectable-choice control reports the
/// backend's affordance for its indicator call, and a container reports the
/// last of its children's affordances that is not `OutOfBounds`.
pub open spec fn element_cursor<M, R: radio::Renderer>(
    e: Element<M>,
    layout: Layout,
    cursor: Point,
) -> MouseCursor
    decreases e, 0int,
{
    match e {
        Element::Row(w) => children_cursor::<M, R>(
            w.children@,
            layout.children@,
            cursor,
            w.children@.len() as int,
        ),
        Element::Column(w) => children_cursor::<M, R>(
            w.children@,
            layout.children@,
            cursor,
            w.children@.len() as int,
        ),
        Element::Text(_) => MouseCursor::OutOfBounds,
        Element::Radio(r) => R::affordance(
            r.is_selected,
            layout.children@[0].bounds,
            layout.bounds,
            cursor,
        ),
    }
}

/// The affordance the first `k` children of a sequence combine to: the last
/// one that reports anything wins.
pub open spec fn children_cursor<M, R: radio::Renderer>(
    cs: Seq<Element<M>>,
    ls: Seq<Layout>,
    cursor: Point,
    k: int,
) -> MouseCursor
    decreases cs, k,
{
    if k <= 0 || k > cs.len() {
        MouseCursor::OutOfBounds
    } else {
        children_cursor::<M, R>(cs, ls, cursor, k - 1).merge_spec(
            element_cursor::<M, R>(cs[k - 1], ls[k - 1], cursor),
        )
    }
}

/// Law: a node that carries an element's layout requirements, resolved into
/// any layout of matching shape, is dispatch-compatible with that element.
/// Together with the engine's shape guarantee this says dispatch against a
/// freshly resolved layout never walks out of step.
pub proof fn lemma_represents_shape_compat<M>(e: Element<M>, n: Node, l: Layout)
    requires
        node_represents(n, e),
        shape_matches(n, l),
    ensures
        element_compat(e, l),
    decreases e,
{
    match e {
        Element::Row(w) => {
            let ns = n.content->Children_0@;
            assert forall|i: int| 0 <= i < w.children@.len() implies element_compat(
                w.children@[i],
                #[trigger] l.children@[i],
            ) by {
                lemma_represents_shape_compat(w.children@[i], ns[i], l.children@[i]);
            }
        },
        Element::Column(w) => {
            let ns = n.content->Children_0@;
            assert forall|i: int| 0 <= i < w.children@.len() implies element_compat(
                w.children@[i],
                #[trigger] l.children@[i],
            ) by {
                lemma_represents_shape_compat(w.children@[i], ns[i], l.children@[i]);
            }
        },
        Element::Text(_) => {},
        Element::Radio(_) => {},
    }
}

impl<M> Element<M> {
    /// The wrapped widget's layout requirements.
    pub fn node<R: text::Renderer>(&self, renderer: &R) -> (node: Node)
        requires
            element_wf(*self),
        ensures
            node.wf(),
            node_represents(node, *self),
        decreases *self,
    {
        match self {
            Element::Row(w) => w.node(renderer),
            Element::Column(w) => w.node(renderer),
            Element::Text(t) => t.node(renderer),
            Element::Radio(r) => r.node(renderer),
        }
    }

    /// Feeds the wrapped widget's structural data to the hash accumulator.
    pub fn hash(&self, state: &mut Hasher)
        ensures
            final(state)@ == old(state)@ + element_feed(*self),
        decreases *self,
    {
        match self {
            Element::Row(w) => w.hash(state),
            Element::Column(w) => w.hash(state),
            Element::Text(t) => t.hash(state),
            Element::Radio(r) => r.hash(state),
        }
    }
}

impl<M: Copy> Element<M> {
    /// Dispatches one event to the wrapped widget.
    pub fn on_event(
        &self,
        event: Event,
        layout: &Layout,
        cursor_position: Point,
        messages: &mut Vec<M>,
    )
        requires
            element_wf(*self),
            element_compat(*self, *layout),
            layout.wf(),
        ensures
            final(messages)@ == old(messages)@ + element_emits(*self, event, *layout,
                cursor_position),
        decreases *self,
    {
        match self {
            Element::Row(w) => w.on_event(event, layout, cursor_position, messages),
            Element::Column(w) => w.on_event(event, layout, cursor_position, messages),
            Element::Text(_) => {
                proof {
                    assert(messages@ =~= messages@ + Seq::<M>::empty());
                }
            },
            Element::Radio(r) => r.on_event(event, layout, cursor_position, messages),
        }
    }

    /// Draws the wrapped widget: the widget's backend calls are issued in
    /// order, and its cursor affordance is returned.
    pub fn draw<R: text::Renderer + radio::Renderer>(
        &self,
        renderer: &mut R,
        layout: &Layout,
        cursor_position: Point,
    ) -> (cursor: MouseCursor)
        requires
            element_wf(*self),
            element_compat(*self, *layout),
            layout.wf(),
        ensures
            final(renderer).calls() == old(renderer).calls() + element_draw_calls(
                *self,
                *layout,
                cursor_position,
            ),
            cursor == element_cursor::<M, R>(*self, *layout, cursor_position),
        decreases *self,
    {
        match self {
            Element::Row(w) => w.draw(renderer, layout, cursor_position),
            Element::Column(w) => w.draw(renderer, layout, cursor_position),
            Element::Text(t) => {
                let cursor = t.draw(renderer, layout, cursor_position);
                proof {
                    assert(renderer.calls() =~= old(renderer).calls() + element_draw_calls(
                        *self,
                        *layout,
                        cursor_position,
                    ));
                }
                cursor
            },
            Element::Radio(r) => r.draw(renderer, layout, cursor_position),
        }
    }

}

impl<M: Copy, R: text::Renderer + radio::Renderer> Widget<M, R> for Element<M> {
    open spec fn wf(&self) -> bool {
        element_wf(*self)
    }

    open spec fn models(&self, node: Node) -> bool {
        node_represents(node, *self)
    }

    open spec fn compat(&self, layout: Layout) -> bool {
        element_compat(*self, layout)
    }

    open spec fn emits(&self, event: Event, layout: Layout, cursor: Point) -> Seq<M> {
        element_emits(*self, event, layout, cursor)
    }

    open spec fn feed(&self) -> Seq<FeedItem> {
        element_feed(*self)
    }

    open spec fn draws(&self, layout: Layout, cursor: Point) -> Seq<DrawCall> {
        element_draw_calls(*self, layout, cursor)
    }

    open spec fn chooses(&self, layout: Layout, cursor: Point) -> MouseCursor {
        element_cursor::<M, R>(*self, layout, cursor)
    }

    fn node(&self, renderer: &R) -> (node: Node) {
        self.node(renderer)
    }

    fn on_event(&self, event: Event, layout: &Layout, cursor_position: Point, messages: &mut Vec<
        M,
    >) {
        self.on_event(event, layout, cursor_position, messages)
    }

    fn draw(&self, renderer: &mut R, layout: &Layout, cursor_position: Point) -> (cursor:
        MouseCursor) {
        self.draw(renderer, layout, cursor_position)
    }

    fn hash(&self, state: &mut Hasher) {
        self.hash(state)
    }
}

impl<M> From<Radio<M>> for Element<M> {
    /// Wraps a selectable-choice control as an element.
    fn from(radio: Radio<M>) -> (e: Element<M>) {
        Element::Radio(radio)
    }
}

impl<M> vstd::std_specs::convert::FromSpecImpl<Radio<M>> for Element<M> {
    open spec fn obeys_from_spec() -> bool {
        true
    }

    open spec fn from_spec(v: Radio<M>) -> Element<M> {
        Element::Radio(v)
    }
}

} // verus!
