use vstd::prelude::*;

use crate::element::{children_compat, children_cursor, children_draw_calls, children_emits,
    children_feed, children_wf, Element, node_represents, nodes_represent};
use crate::geometry::{COORD_LIMIT, Point};
use crate::graphics::{DrawCall, MouseCursor};
use crate::hasher::{FeedItem, Hasher};
use crate::input::Event;
use crate::layout::Layout;
use crate::node::Node;
use crate::radio;
use crate::style::{align_code, dimension_feed, spec_align_code, write_dimension, Align, Dimension,
    Direction, Style};
use crate::text;
use crate::widget::Widget;

verus! {

/// A container that stacks heterogeneous children vertically under a flex
/// style; it introduces no graphics of its own and delegates events and
/// drawing to its children pairwise with the resolved child layouts, in
/// insertion order.
pub struct Column<M> {
    pub width: Dimension,
    pub height: Dimension,
    pub align_items: Align,
    pub spacing: i64,
    pub children: Vec<Element<M>>,
}

/// A column's configuration invariant: dimensions and spacing in range,
/// children well formed.
pub open spec fn column_wf<M>(w: Column<M>) -> bool
    decreases w,
{
    &&& w.width.wf()
    &&& w.height.wf()
    &&& 0 <= w.spacing <= COORD_LIMIT
    &&& children_wf(w.children@)
}

/// The style of the node a column declares.
pub open spec fn column_style<M>(w: Column<M>) -> Style {
    Style {
        width: w.width,
        height: w.height,
        direction: Direction::Column,
        align_items: w.align_items,
        spacing: w.spacing,
    }
}

/// The data a column feeds the structural hash before its children: spacing,
/// alignment and both dimensions.
pub open spec fn column_head_feed<M>(w: Column<M>) -> Seq<FeedItem> {
    seq![
        FeedItem::Word(w.spacing as int),
        FeedItem::Word(spec_align_code(w.align_items)),
    ] + dimension_feed(w.width) + dimension_feed(w.height)
}

/// The data a column feeds the structural hash: its head data, then each
/// child's feed in insertion order.
pub open spec fn column_feed<M>(w: Column<M>) -> Seq<FeedItem>
    decreases w, 0int,
{
    column_head_feed(w) + children_feed(w.children@, w.children@.len() as int)
}

impl<M> Column<M> {
    /// An empty column: auto-sized, no spacing, children packed at the start
    /// of the cross axis.
    pub fn new() -> (w: Column<M>)
        ensures
            w.width == Dimension::Auto,
            w.height == Dimension::Auto,
            w.align_items == Align::Start,
            w.spacing == 0,
            w.children@ =~= Seq::<Element<M>>::empty(),
    {
        Column {
            width: Dimension::Auto,
            height: Dimension::Auto,
            align_items: Align::Start,
            spacing: 0,
            children: Vec::new(),
        }
    }

    /// Sets the space between consecutive children.
    pub fn spacing(self, units: i64) -> (w: Column<M>)
        requires
            0 <= units <= COORD_LIMIT,
        ensures
            w == (Column { spacing: units, ..self }),
    {
        Column { spacing: units, ..self }
    }

    /// Sets how children are aligned on the cross axis.
    pub fn align_items(self, align: Align) -> (w: Column<M>)
        ensures
            w == (Column { align_items: align, ..self }),
    {
        Column { align_items: align, ..self }
    }

    /// Fixes the column's width.
    pub fn width(self, width: i64) -> (w: Column<M>)
        requires
            0 <= width <= COORD_LIMIT,
        ensures
            w == (Column { width: Dimension::Points(width), ..self }),
    {
        Column { width: Dimension::Points(width), ..self }
    }

    /// Fixes the column's height.
    pub fn height(self, height: i64) -> (w: Column<M>)
        requires
            0 <= height <= COORD_LIMIT,
        ensures
            w == (Column { height: Dimension::Points(height), ..self }),
    {
        Column { height: Dimension::Points(height), ..self }
    }

    /// Appends one child; children keep insertion order.
    pub fn push(self, child: Element<M>) -> (w: Column<M>)
        ensures
            w.width == self.width,
            w.height == self.height,
            w.align_items == self.align_items,
            w.spacing == self.spacing,
            w.children@ == self.children@.push(child),
    {
        let mut s = self;
        s.children.push(child);
        s
    }

    /// A column's layout requirements: its flex style over its children's
    /// nodes, in insertion order.
    pub fn node<R: text::Renderer>(&self, renderer: &R) -> (node: Node)
        requires
            column_wf(*self),
        ensures
            node.wf(),
            node.style == column_style(*self),
            node.content is Children,
            nodes_represent(node.content->Children_0@, self.children@),
        decreases *self,
    {
        let mut nodes: Vec<Node> = Vec::new();
        let mut i: usize = 0;
        while i < self.children.len()
            invariant
                column_wf(*self),
                i <= self.children@.len(),
                nodes@.len() == i,
                forall|j: int| 0 <= j < i ==> (#[trigger] nodes@[j]).wf(),
                forall|j: int|
                    0 <= j < i ==> node_represents(#[trigger] nodes@[j], self.children@[j]),
            decreases self.children@.len() - i,
        {
            let child_node = self.children[i].node(renderer);
            nodes.push(child_node);
            i = i + 1;
        }
        let style = Style {
            width: self.width,
            height: self.height,
            direction: Direction::Column,
            align_items: self.align_items,
            spacing: self.spacing,
        };
        Node::new(style, nodes)
    }

    /// Feeds the column's own configuration, then each child in order, to
    /// the structural hash accumulator.
    pub fn hash(&self, state: &mut Hasher)
        ensures
            final(state)@ == old(state)@ + column_feed(*self),
        decreases *self,
    {
        state.write_i64(self.spacing);
        state.write_i64(align_code(self.align_items));
        write_dimension(state, self.width);
        write_dimension(state, self.height);
        proof {
            assert(state@ =~= old(state)@ + column_head_feed(*self));
        }
        let mut i: usize = 0;
        while i < self.children.len()
            invariant
                i <= self.children@.len(),
                state@ == old(state)@ + column_head_feed(*self) + children_feed(
                    self.children@,
                    i as int,
                ),
            decreases self.children@.len() - i,
        {
            self.children[i].hash(state);
            proof {
                assert(state@ =~= old(state)@ + column_head_feed(*self) + children_feed(
                    self.children@,
                    i + 1,
                ));
            }
            i = i + 1;
        }
        proof {
            assert(old(state)@ + column_head_feed(*self) + children_feed(
                self.children@,
                self.children@.len() as int,
            ) =~= old(state)@ + column_feed(*self));
        }
    }
}

impl<M: Copy> Column<M> {
    /// Dispatches one event to every child in insertion order against the
    /// parallel child layouts; the column's output is the concatenation of
    /// the children's contributions in that order.
    pub fn on_event(
        &self,
        event: Event,
        layout: &Layout,
        cursor_position: Point,
        messages: &mut Vec<M>,
    )
        requires
            column_wf(*self),
            children_compat(self.children@, layout.children@),
            layout.wf(),
        ensures
            final(messages)@ == old(messages)@ + children_emits(
                self.children@,
                layout.children@,
                event,
                cursor_position,
                self.children@.len() as int,
            ),
        decreases *self,
    {
        proof {
            assert(messages@ =~= old(messages)@ + children_emits(
                self.children@,
                layout.children@,
                event,
                cursor_position,
                0,
            ));
        }
        let mut i: usize = 0;
        while i < self.children.len()
            invariant
                column_wf(*self),
                children_compat(self.children@, layout.children@),
                layout.wf(),
                i <= self.children@.len(),
                messages@ == old(messages)@ + children_emits(
                    self.children@,
                    layout.children@,
                    event,
                    cursor_position,
                    i as int,
                ),
            decreases self.children@.len() - i,
        {
            self.children[i].on_event(event, &layout.children()[i], cursor_position, messages);
            proof {
                assert(messages@ =~= old(messages)@ + children_emits(
                    self.children@,
                    layout.children@,
                    event,
                    cursor_position,
                    i + 1,
                ));
            }
            i = i + 1;
        }
    }

    /// Draws every child in insertion order against the parallel child
    /// layouts, issuing exactly the children's backend calls and nothing of
    /// its own; the last child that reports a cursor affordance wins.
    pub fn draw<R: text::Renderer + radio::Renderer>(
        &self,
        renderer: &mut R,
        layout: &Layout,
        cursor_position: Point,
    ) -> (cursor: MouseCursor)
        requires
            column_wf(*self),
            children_compat(self.children@, layout.children@),
            layout.wf(),
        ensures
            final(renderer).calls() == old(renderer).calls() + children_draw_calls(
                self.children@,
                layout.children@,
                cursor_position,
                self.children@.len() as int,
            ),
            cursor == children_cursor::<M, R>(
                self.children@,
                layout.children@,
                cursor_position,
                self.children@.len() as int,
            ),
        decreases *self,
    {
        let mut cursor = MouseCursor::OutOfBounds;
        proof {
            assert(renderer.calls() =~= old(renderer).calls() + children_draw_calls(
                self.children@,
                layout.children@,
                cursor_position,
                0,
            ));
        }
        let mut i: usize = 0;
        while i < self.children.len()
            invariant
                column_wf(*self),
                children_compat(self.children@, layout.children@),
                layout.wf(),
                i <= self.children@.len(),
                renderer.calls() == old(renderer).calls() + children_draw_calls(
                    self.children@,
                    layout.children@,
                    cursor_position,
                    i as int,
                ),
                cursor == children_cursor::<M, R>(
                    self.children@,
                    layout.children@,
                    cursor_position,
                    i as int,
                ),
            decreases self.children@.len() - i,
        {
            let c = self.children[i].draw(renderer, &layout.children()[i], cursor_position);
            cursor = cursor.merge(c);
            proof {
                assert(renderer.calls() =~= old(renderer).calls() + children_draw_calls(
                    self.children@,
                    layout.children@,
                    cursor_position,
                    i + 1,
                ));
            }
            i = i + 1;
        }
        cursor
    }
}

impl<M: Copy, R: text::Renderer + radio::Renderer> Widget<M, R> for Column<M> {
    open spec fn wf(&self) -> bool {
        column_wf(*self)
    }

    open spec fn models(&self, node: Node) -> bool {
        &&& node.style == column_style(*self)
        &&& node.content is Children
        &&& nodes_represent(node.content->Children_0@, self.children@)
    }

    open spec fn compat(&self, layout: Layout) -> bool {
        children_compat(self.children@, layout.children@)
    }

    open spec fn emits(&self, event: Event, layout: Layout, cursor: Point) -> Seq<M> {
        children_emits(
            self.children@,
            layout.children@,
            event,
            cursor,
            self.children@.len() as int,
        )
    }

    open spec fn feed(&self) -> Seq<FeedItem> {
        column_feed(*self)
    }

    open spec fn draws(&self, layout: Layout, cursor: Point) -> Seq<DrawCall> {
        children_draw_calls(
            self.children@,
            layout.children@,
            cursor,
            self.children@.len() as int,
        )
    }

    open spec fn chooses(&self, layout: Layout, cursor: Point) -> MouseCursor {
        children_cursor::<M, R>(
            self.children@,
            layout.children@,
            cursor,
            self.children@.len() as int,
        )
    }

    fn node(&self, renderer: &R) -> (node: Node) {
        self.node(renderer)
    }

    fn on_event(&self, event: Event, layout: &Layout, cursor_position: Point, messages: &mut Vec<
        M,
    >) {
        self.on_event(event, layout, cursor_position, messages)
    }

    fn draw(&self, renderer: &mut R, layout: &Layout, cursor_position: Point) -> (cursor:
        MouseCursor) {
        self.draw(renderer, layout, cursor_position)
    }

    fn hash(&self, state: &mut Hasher) {
        self.hash(state)
    }
}

} // verus!
