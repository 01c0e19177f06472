use vstd::prelude::*;

use crate::geometry::Point;
use crate::graphics::{DrawCall, DrawRecord, MouseCursor};
use crate::hasher::{FeedItem, Hasher};
use crate::input::Event;
use crate::layout::Layout;
use crate::node::Node;

verus! {

/// The capability every user-interface element implements, parameterized by
/// the message type `M` it emits in response to input and the renderer
/// capability `R` it draws against.
///
/// A widget declares its layout requirements with `node`, reacts to input
/// against the resolved geometry with `on_event`, renders itself with
/// `draw`, and feeds the data that decides its layout requirements into a
/// structural hash accumulator with `hash`.
pub trait Widget<M, R: DrawRecord> {
    /// The configuration invariant this widget keeps.
    spec fn wf(&self) -> bool;

    /// Whether a node tree carries this widget's declared layout
    /// requirements: every layout resolved from such a node is
    /// dispatch-compatible with this widget.
    spec fn models(&self, node: Node) -> bool;

    /// Whether a layout tree is shaped so this widget can dispatch against
    /// it: one child layout per child the widget declared, in order.
    spec fn compat(&self, layout: Layout) -> bool;

    /// The messages this widget appends for one event against its resolved
    /// layout and the current pointer position.
    spec fn emits(&self, event: Event, layout: Layout, cursor: Point) -> Seq<M>;

    /// The data this widget feeds the structural hash accumulator.
    spec fn feed(&self) -> Seq<FeedItem>;

    /// The backend calls, in order and with their exact arguments, that one
    /// draw pass of this widget issues against its resolved layout.
    spec fn draws(&self, layout: Layout, cursor: Point) -> Seq<DrawCall>;

    /// The cursor affordance one draw pass of this widget reports: what the
    /// backend decides for the last interactive child that reports one.
    spec fn chooses(&self, layout: Layout, cursor: Point) -> MouseCursor;

    /// Produces this widget's current layout requirements, recursively
    /// pulling the children's nodes for composite widgets.
    fn node(&self, renderer: &R) -> (node: Node)
        requires
            self.wf(),
        ensures
            node.wf(),
            self.models(node),
    ;

    /// Reacts to one input event, appending this widget's messages, in
    /// order, to the shared outgoing collection. Unrecognized events are
    /// no-ops; the widget itself never fails.
    fn on_event(&self, event: Event, layout: &Layout, cursor_position: Point, messages: &mut Vec<M>)
        requires
            self.wf(),
            self.compat(*layout),
            layout.wf(),
        ensures
            final(messages)@ == old(messages)@ + self.emits(event, *layout, cursor_position),
    ;

    /// Renders this widget against the given backend and resolved geometry,
    /// returning the cursor affordance the backend decides on. Idempotent:
    /// equal inputs issue the same backend calls and report the same cursor,
    /// every frame.
    fn draw(&self, renderer: &mut R, layout: &Layout, cursor_position: Point) -> (cursor:
        MouseCursor)
        requires
            self.wf(),
            self.compat(*layout),
            layout.wf(),
        ensures
            final(renderer).calls() == old(renderer).calls() + self.draws(*layout,
                cursor_position),
            cursor == self.chooses(*layout, cursor_position),
    ;

    /// Feeds every datum that affects this widget's `node` output to the
    /// structural hash accumulator.
    fn hash(&self, state: &mut Hasher)
        ensures
            final(state)@ == old(state)@ + self.feed(),
    ;
}

} // verus!
