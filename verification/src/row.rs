use vstd::prelude::*;

use crate::element::{children_compat, children_cursor, children_draw_calls, children_emits,
    children_feed, children_wf, Element, node_represents, nodes_represent};
use crate::geometry::{COORD_LIMIT, Point};
use crate::graphics::{DrawCall, MouseCursor};
use crate::hasher::{FeedItem, Hasher};
use crate::input::Event;
use crate::layout::Layout;
use crate::node::Node;
use crate::radio;
use crate::style::{align_code, dimension_feed, spec_align_code, write_dimension, Align, Dimension,
    Direction, Style};
use crate::text;
use crate::widget::Widget;

verus! {

/// A container that stacks heterogeneous children horizontally under a flex
/// style; it introduces no graphics of its own and delegates events and
/// drawing to its children pairwise with the resolved child layouts, in
/// insertion order.
pub struct Row<M> {
    pub width: Dimension,
    pub height: Dimension,
    pub align_items: Align,
    pub spacing: i64,
    pub children: Vec<Element<M>>,
}

/// A row's configuration invariant: dimensions and spacing in range,
/// children well formed.
pub open spec fn row_wf<M>(w: Row<M>) -> bool
    decreases w,
{
    &&& w.width.wf()
    &&& w.height.wf()
    &&& 0 <= w.spacing <= COORD_LIMIT
    &&& children_wf(w.children@)
}

/// The style of the node a row declares.
pub open spec fn row_style<M>(w: Row<M>) -> Style {
    Style {
        width: w.width,
        height: w.height,
        direction: Direction::Row,
        align_items: w.align_items,
        spacing: w.spacing,
    }
}

/// The data a row feeds the structural hash before its children: spacing,
/// alignment and both dimensions.
pub open spec fn row_head_feed<M>(w: Row<M>) -> Seq<FeedItem> {
    seq![
        FeedItem::Word(w.spacing as int),
        FeedItem::Word(spec_align_code(w.align_items)),
    ] + dimension_feed(w.width) + dimension_feed(w.height)
}

/// The data a row feeds the structural hash: its head data, then each
/// child's feed in insertion order.
pub open spec fn row_feed<M>(w: Row<M>) -> Seq<FeedItem>
    decreases w, 0int,
{
    row_head_feed(w) + children_feed(w.children@, w.children@.len() as int)
}

impl<M> Row<M> {
    /// An empty row: auto-sized, no spacing, children packed at the start of
    /// the cross axis.
    pub fn new() -> (w: Row<M>)
        ensures
            w.width == Dimension::Auto,
            w.height == Dimension::Auto,
            w.align_items == Align::Start,
            w.spacing == 0,
            w.children@ =~= Seq::<Element<M>>::empty(),
    {
        Row {
            width: Dimension::Auto,
            height: Dimension::Auto,
            align_items: Align::Start,
            spacing: 0,
            children: Vec::new(),
        }
    }

    /// Sets the space between consecutive children.
    pub fn spacing(self, units: i64) -> (w: Row<M>)
        requires
            0 <= units <= COORD_LIMIT,
        ensures
            w == (Row { spacing: units, ..self }),
    {
        Row { spacing: units, ..self }
    }

    /// Sets how children are aligned on the cross axis.
    pub fn align_items(self, align: Align) -> (w: Row<M>)
        ensures
            w == (Row { align_items: align, ..self }),
    {
        Row { align_items: align, ..self }
    }

    /// Fixes the row's width.
    pub fn width(self, width: i64) -> (w: Row<M>)
        requires
            0 <= width <= COORD_LIMIT,
        ensures
            w == (Row { width: Dimension::Points(width), ..self }),
    {
        Row { width: Dimension::Points(width), ..self }
    }

    /// Fixes the row's height.
    pub fn height(self, height: i64) -> (w: Row<M>)
        requires
            0 <= height <= COORD_LIMIT,
        ensures
            w == (Row { height: Dimension::Points(height), ..self }),
    {
        Row { height: Dimension::Points(height), ..self }
    }

    /// Appends one child; children keep insertion order.
    pub fn push(self, child: Element<M>) -> (w: Row<M>)
        ensures
            w.width == self.width,
            w.height == self.height,
            w.align_items == self.align_items,
            w.spacing == self.spacing,
            w.children@ == self.children@.push(child),
    {
        let mut s = self;
        s.children.push(child);
        s
    }

    /// A row's layout requirements: its flex style over its children's
    /// nodes, in insertion order.
    pub fn node<R: text::Renderer>(&self, renderer: &R) -> (node: Node)
        requires
            row_wf(*self),
        ensures
            node.wf(),
            node.style == row_style(*self),
            node.content is Children,
            nodes_represent(node.content->Children_0@, self.children@),
        decreases *self,
    {
        let mut nodes: Vec<Node> = Vec::new();
        let mut i: usize = 0;
        while i < self.children.len()
            invariant
                row_wf(*self),
                i <= self.children@.len(),
                nodes@.len() == i,
                forall|j: int| 0 <= j < i ==> (#[trigger] nodes@[j]).wf(),
                forall|j: int|
                    0 <= j < i ==> node_represents(#[trigger] nodes@[j], self.children@[j]),
            decreases self.children@.len() - i,
        {
            let child_node = self.children[i].node(renderer);
            nodes.push(child_node);
            i = i + 1;
        }
        let style = Style {
            width: self.width,
            height: self.height,
            direction: Direction::Row,
            align_items: self.align_items,
            spacing: self.spacing,
        };
        Node::new(style, nodes)
    }

    /// Feeds the row's own configuration, then each child in order, to the
    /// structural hash accumulator.
    pub fn hash(&self, state: &mut Hasher)
        ensures
            final(state)@ == old(state)@ + row_feed(*self),
        decreases *self,
    {
        state.write_i64(self.spacing);
        state.write_i64(align_code(self.align_items));
        write_dimension(state, self.width);
        write_dimension(state, self.height);
        proof {
            assert(state@ =~= old(state)@ + row_head_feed(*self));
        }
        let mut i: usize = 0;
        while i < self.children.len()
            invariant
                i <= self.children@.len(),
                state@ == old(state)@ + row_head_feed(*self) + children_feed(
                    self.children@,
                    i as int,
                ),
            decreases self.children@.len() - i,
        {
            self.children[i].hash(state);
            proof {
                assert(state@ =~= old(state)@ + row_head_feed(*self) + children_feed(
                    self.children@,
                    i + 1,
                ));
            }
            i = i + 1;
        }
        proof {
            assert(old(state)@ + row_head_feed(*self) + children_feed(
                self.children@,
                self.children@.len() as int,
            ) =~= old(state)@ + row_feed(*self));
        }
    }
}

impl<M: Copy> Row<M> {
    /// Dispatches one event to every child in insertion order against the
    /// parallel child layouts; the row's output is the concatenation of the
    /// children's contributions in that order.
    pub fn on_event(
        &self,
        event: Event,
        layout: &Layout,
        cursor_position: Point,
        messages: &mut Vec<M>,
    )
        requires
            row_wf(*self),
            children_compat(self.children@, layout.children@),
            layout.wf(),
        ensures
            final(messages)@ == old(messages)@ + children_emits(
                self.children@,
                layout.children@,
                event,
                cursor_position,
                self.children@.len() as int,
            ),
        decreases *self,
    {
        proof {
            assert(messages@ =~= old(messages)@ + children_emits(
                self.children@,
                layout.children@,
                event,
                cursor_position,
                0,
            ));
        }
        let mut i: usize = 0;
        while i < self.children.len()
            invariant
                row_wf(*self),
                children_compat(self.children@, layout.children@),
                layout.wf(),
                i <= self.children@.len(),
                messages@ == old(messages)@ + children_emits(
                    self.children@,
                    layout.children@,
                    event,
                    cursor_position,
                    i as int,
                ),
            decreases self.children@.len() - i,
        {
            self.children[i].on_event(event, &layout.children()[i], cursor_position, messages);
            proof {
                assert(messages@ =~= old(messages)@ + children_emits(
                    self.children@,
                    layout.children@,
                    event,
                    cursor_position,
                    i + 1,
                ));
            }
            i = i + 1;
        }
    }

    /// Draws every child in insertion order against the parallel child
    /// layouts, issuing exactly the children's backend calls and nothing of
    /// its own; the last child that reports a cursor affordance wins.
    pub fn draw<R: text::Renderer + radio::Renderer>(
        &self,
        renderer: &mut R,
        layout: &Layout,
        cursor_position: Point,
    ) -> (cursor: MouseCursor)
        requires
            row_wf(*self),
            children_compat(self.children@, layout.children@),
            layout.wf(),
        ensures
            final(renderer).calls() == old(renderer).calls() + children_draw_calls(
                self.children@,
                layout.children@,
                cursor_position,
                self.children@.len() as int,
            ),
            cursor == children_cursor::<M, R>(
                self.children@,
                layout.children@,
                cursor_position,
                self.children@.len() as int,
            ),
        decreases *self,
    {
        let mut cursor = MouseCursor::OutOfBounds;
        proof {
            assert(renderer.calls() =~= old(renderer).calls() + children_draw_calls(
                self.children@,
                layout.children@,
                cursor_position,
                0,
            ));
        }
        let mut i: usize = 0;
        while i < self.children.len()
            invariant
                row_wf(*self),
                children_compat(self.children@, layout.children@),
                layout.wf(),
                i <= self.children@.len(),
                renderer.calls() == old(renderer).calls() + children_draw_calls(
                    self.children@,
                    layout.children@,
                    cursor_position,
                    i as int,
                ),
                cursor == children_cursor::<M, R>(
                    self.children@,
                    layout.children@,
                    cursor_position,
                    i as int,
                ),
            decreases self.children@.len() - i,
        {
            let c = self.children[i].draw(renderer, &layout.children()[i], cursor_position);
            cursor = cursor.merge(c);
            proof {
                assert(renderer.calls() =~= old(renderer).calls() + children_draw_calls(
                    self.children@,
                    layout.children@,
                    cursor_position,
                    i + 1,
                ));
            }
            i = i + 1;
        }
        cursor
    }
}

impl<M: Copy, R: text::Renderer + radio::Renderer> Widget<M, R> for Row<M> {
    open spec fn wf(&self) -> bool {
        row_wf(*self)
    }

    open spec fn models(&self, node: Node) -> bool {
        &&& node.style == row_style(*self)
        &&& node.content is Children
        &&& nodes_represent(node.content->Children_0@, self.children@)
    }

    open spec fn compat(&self, layout: Layout) -> bool {
        children_compat(self.children@, layout.children@)
    }

    open spec fn emits(&self, event: Event, layout: Layout, cursor: Point) -> Seq<M> {
        children_emits(
            self.children@,
            layout.children@,
            event,
            cursor,
            self.children@.len() as int,
        )
    }

    open spec fn feed(&self) -> Seq<FeedItem> {
        row_feed(*self)
    }

    open spec fn draws(&self, layout: Layout, cursor: Point) -> Seq<DrawCall> {
        children_draw_calls(
            self.children@,
            layout.children@,
            cursor,
            self.children@.len() as int,
        )
    }

    open spec fn chooses(&self, layout: Layout, cursor: Point) -> MouseCursor {
        children_cursor::<M, R>(
            self.children@,
            layout.children@,
            cursor,
            self.children@.len() as int,
        )
    }

    fn node(&self, renderer: &R) -> (node: Node) {
        self.node(renderer)
    }

    fn on_event(&self, event: Event, layout: &Layout, cursor_position: Point, messages: &mut Vec<
        M,
    >) {
        self.on_event(event, layout, cursor_position, messages)
    }

    fn draw(&self, renderer: &mut R, layout: &Layout, cursor_position: Point) -> (cursor:
        MouseCursor) {
        self.draw(renderer, layout, cursor_position)
    }

    fn hash(&self, state: &mut Hasher) {
        self.hash(state)
    }
}

} // verus!
