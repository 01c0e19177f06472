use vstd::prelude::*;
use vstd::string::StringExecFns;

use crate::geometry::{Point, Rectangle, Size};
use crate::graphics::{Color, DrawCall, DrawRecord, HorizontalAlignment, MouseCursor,
    VerticalAlignment};
use crate::hasher::{FeedItem, Hasher};
use crate::input::Event;
use crate::layout::Layout;
use crate::node::{Content, Measure, Node};
use crate::style::Style;
use crate::widget::Widget;

verus! {

/// The text-drawing capability a concrete backend implements: measuring is
/// needed at node-construction time (text metrics live in the backend), and
/// drawing happens once per frame.
pub trait Renderer: DrawRecord {
    /// The size this backend measures for given contents: a pure function
    /// of the contents, so that equal text measures equal and node
    /// construction is deterministic.
    spec fn metrics(&self, content: Seq<char>) -> Size<i64>;

    /// Measures the definite size of a text's contents. A backend reports
    /// its own metrics, inside the engine's coordinate range.
    fn measure(&self, content: &str) -> (size: Size<i64>)
        ensures
            size == self.metrics(content@),
            size.wf(),
    ;

    /// Draws a text against the given bounds, recording the call.
    fn draw(
        &mut self,
        content: &str,
        size: i64,
        color: Color,
        horizontal_alignment: HorizontalAlignment,
        vertical_alignment: VerticalAlignment,
        bounds: Rectangle,
    )
        ensures
            final(self).calls() == old(self).calls().push(
                DrawCall::Text {
                    content: content@,
                    size: size as int,
                    color,
                    horizontal_alignment,
                    vertical_alignment,
                    bounds,
                },
            ),
    ;
}

/// The size drawn text is given where a widget does not choose one itself.
pub const DEFAULT_TEXT_SIZE: i64 = 20;

/// A paragraph of text: a leaf widget whose intrinsic size the backend
/// measures.
pub struct Text {
    pub content: String,
}

/// The data a text feeds the structural hash: its contents, which alone
/// decide its measured size.
pub open spec fn text_feed(t: Text) -> Seq<FeedItem> {
    seq![FeedItem::Label(t.content@)]
}

/// The one backend call a text's draw pass issues: its contents at the
/// default size, in white, anchored left and top, against its resolved
/// bounds.
pub open spec fn text_draw_call(t: Text, layout: Layout) -> DrawCall {
    DrawCall::Text {
        content: t.content@,
        size: DEFAULT_TEXT_SIZE as int,
        color: Color::white_spec(),
        horizontal_alignment: HorizontalAlignment::Left,
        vertical_alignment: VerticalAlignment::Top,
        bounds: layout.bounds,
    }
}

impl Text {
    /// Creates a text from its contents.
    pub fn new(label: &str) -> (t: Text)
        ensures
            t.content@ == label@,
    {
        Text { content: String::from_str(label) }
    }

    /// A text's layout requirements: a leaf node holding exactly the size
    /// the backend measures for its contents, under the default style.
    pub fn node<R: Renderer>(&self, renderer: &R) -> (node: Node)
        ensures
            node.wf(),
            node.style == Style::default_spec(),
            node.content == Content::Measure(Measure::Exact(renderer.metrics(self.content@))),
    {
        let size = renderer.measure(self.content.as_str());
        Node::with_measure(Style::new(), Measure::Exact(size))
    }

    /// Text reacts to no input event.
    pub fn on_event<M>(
        &self,
        event: Event,
        layout: &Layout,
        cursor_position: Point,
        messages: &mut Vec<M>,
    )
        ensures
            final(messages)@ == old(messages)@,
    {
    }

    /// Draws the contents against the resolved bounds: exactly one backend
    /// call, and no cursor affordance of its own.
    pub fn draw<R: Renderer>(&self, renderer: &mut R, layout: &Layout, cursor_position: Point) -> (
        cursor: MouseCursor)
        ensures
            final(renderer).calls() == old(renderer).calls().push(
                text_draw_call(*self, *layout),
            ),
            cursor == MouseCursor::OutOfBounds,
    {
        renderer.draw(
            self.content.as_str(),
            DEFAULT_TEXT_SIZE,
            Color::white(),
            HorizontalAlignment::Left,
            VerticalAlignment::Top,
            layout.bounds(),
        );
        MouseCursor::OutOfBounds
    }

    /// Feeds the contents to the structural hash accumulator.
    pub fn hash(&self, state: &mut Hasher)
        ensures
            final(state)@ == old(state)@ + text_feed(*self),
    {
        state.write_str(self.content.as_str());
        proof {
            assert(state@ =~= old(state)@ + text_feed(*self));
        }
    }
}

impl<M, R: Renderer> Widget<M, R> for Text {
    open spec fn wf(&self) -> bool {
        true
    }

    open spec fn models(&self, node: Node) -> bool {
        node.content is Measure
    }

    open spec fn compat(&self, layout: Layout) -> bool {
        true
    }

    open spec fn emits(&self, event: Event, layout: Layout, cursor: Point) -> Seq<M> {
        Seq::empty()
    }

    open spec fn feed(&self) -> Seq<FeedItem> {
        text_feed(*self)
    }

    open spec fn draws(&self, layout: Layout, cursor: Point) -> Seq<DrawCall> {
        seq![text_draw_call(*self, layout)]
    }

    open spec fn chooses(&self, layout: Layout, cursor: Point) -> MouseCursor {
        MouseCursor::OutOfBounds
    }

    fn node(&self, renderer: &R) -> (node: Node) {
        self.node(renderer)
    }

    fn on_event(&self, event: Event, layout: &Layout, cursor_position: Point, messages: &mut Vec<
        M,
    >) {
        proof {
            assert(messages@ =~= messages@ + Seq::<M>::empty());
        }
    }

    fn draw(&self, renderer: &mut R, layout: &Layout, cursor_position: Point) -> (cursor:
        MouseCursor) {
        let cursor = self.draw(renderer, layout, cursor_position);
        proof {
            assert(renderer.calls() =~= old(renderer).calls() + seq![
                text_draw_call(*self, *layout),
            ]);
        }
        cursor
    }

    fn hash(&self, state: &mut Hasher) {
        self.hash(state)
    }
}

} // verus!
