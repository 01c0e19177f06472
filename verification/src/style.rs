use vstd::prelude::*;

use crate::geometry::COORD_LIMIT;
use crate::hasher::{FeedItem, Hasher};

verus! {

/// How one axis of a node is sized: picked by the node's children or
/// measure function, a fixed amount of space, or a share of the space the
/// parent proposes.
#[derive(Clone, Copy, PartialEq, Eq, Structural, Debug)]
pub enum Dimension {
    Auto,
    Points(i64),
    Percent(i64),
}

impl Dimension {
    /// Fixed amounts stay in the engine's range; a share lies in `0..=100`.
    pub open spec fn wf(self) -> bool {
        match self {
            Dimension::Auto => true,
            Dimension::Points(v) => 0 <= v <= COORD_LIMIT,
            Dimension::Percent(p) => 0 <= p <= 100,
        }
    }
}

/// The main axis along which a container stacks its children.
#[derive(Clone, Copy, PartialEq, Eq, Structural, Debug)]
pub enum Direction {
    Row,
    Column,
}

/// How children are aligned on the axis perpendicular to the stacking
/// direction.
#[derive(Clone, Copy, PartialEq, Eq, Structural, Debug)]
pub enum Align {
    Start,
    Center,
    End,
}

/// The sizing, spacing and alignment rules of one layout node.
#[derive(Clone, Copy, PartialEq, Eq, Structural, Debug)]
pub struct Style {
    pub width: Dimension,
    pub height: Dimension,
    pub direction: Direction,
    pub align_items: Align,
    pub spacing: i64,
}

impl Style {
    /// The default style as a mathematical value: auto-sized row with no
    /// spacing, children packed at the start of the cross axis.
    pub open spec fn default_spec() -> Style {
        Style {
            width: Dimension::Auto,
            height: Dimension::Auto,
            direction: Direction::Row,
            align_items: Align::Start,
            spacing: 0,
        }
    }

    /// A style is well formed when its dimensions and spacing are in range.
    pub open spec fn wf(self) -> bool {
        &&& self.width.wf()
        &&& self.height.wf()
        &&& 0 <= self.spacing <= COORD_LIMIT
    }

    /// The default style: auto-sized row with no spacing, children packed
    /// at the start of the cross axis.
    pub fn new() -> (s: Style)
        ensures
            s == (Style {
                width: Dimension::Auto,
                height: Dimension::Auto,
                direction: Direction::Row,
                align_items: Align::Start,
                spacing: 0,
            }),
            s.wf(),
    {
        Style {
            width: Dimension::Auto,
            height: Dimension::Auto,
            direction: Direction::Row,
            align_items: Align::Start,
            spacing: 0,
        }
    }
}

/// The word a cross-axis alignment feeds the structural hash.
pub open spec fn spec_align_code(a: Align) -> int {
    match a {
        Align::Start => 0,
        Align::Center => 1,
        Align::End => 2,
    }
}

/// The word a cross-axis alignment feeds the structural hash.
pub fn align_code(a: Align) -> (c: i64)
    ensures
        c as int == spec_align_code(a),
{
    match a {
        Align::Start => 0,
        Align::Center => 1,
        Align::End => 2,
    }
}

/// The two words one dimension feeds the structural hash: a tag and the
/// amount, so that distinct dimensions feed distinct data.
pub open spec fn dimension_feed(d: Dimension) -> Seq<FeedItem> {
    match d {
        Dimension::Auto => seq![FeedItem::Word(0), FeedItem::Word(0)],
        Dimension::Points(v) => seq![FeedItem::Word(1), FeedItem::Word(v as int)],
        Dimension::Percent(p) => seq![FeedItem::Word(2), FeedItem::Word(p as int)],
    }
}

/// Feeds one dimension to the structural hash accumulator.
pub fn write_dimension(state: &mut Hasher, d: Dimension)
    ensures
        final(state)@ == old(state)@ + dimension_feed(d),
{
    match d {
        Dimension::Auto => {
            state.write_i64(0);
            state.write_i64(0);
        },
        Dimension::Points(v) => {
            state.write_i64(1);
            state.write_i64(v);
        },
        Dimension::Percent(p) => {
            state.write_i64(2);
            state.write_i64(p);
        },
    }
    proof {
        assert(state@ =~= old(state)@ + dimension_feed(d));
    }
}

} // verus!
