use vstd::prelude::*;

use crate::geometry::{Number, Size};
use crate::style::Style;

verus! {

/// A leaf node's measurement strategy: a total function from the size the
/// parent proposes (each axis possibly unconstrained) to a definite size.
#[derive(Clone, Copy, PartialEq, Eq, Structural, Debug)]
pub enum Measure {
    /// The leaf has one intrinsic size whatever space is proposed.
    Exact(Size<i64>),
    /// The leaf adapts to the proposed space, falling back to an intrinsic
    /// size on any axis the parent leaves unconstrained.
    Fill(Size<i64>),
}

impl Measure {
    pub open spec fn wf(self) -> bool {
        match self {
            Measure::Exact(s) => s.wf(),
            Measure::Fill(s) => s.wf(),
        }
    }
}

/// What a node owns: an ordered sequence of child nodes, or a measurement
/// strategy. The two are mutually exclusive: a measured node is a leaf.
pub enum Content {
    Children(Vec<Node>),
    Measure(Measure),
}

/// The declared layout requirements of one widget: a style plus either
/// children or a measurement strategy. Built fresh for each layout pass,
/// never mutated afterwards.
pub struct Node {
    pub style: Style,
    pub content: Content,
}

/// Every node of a sequence is well formed.
pub open spec fn nodes_wf(cs: Seq<Node>) -> bool
    decreases cs,
{
    forall|i: int| 0 <= i < cs.len() ==> (#[trigger] cs[i]).wf()
}

impl Node {
    /// How many child nodes this node owns; a measured node has none.
    pub open spec fn child_count(self) -> nat {
        match self.content {
            Content::Children(cs) => cs@.len(),
            Content::Measure(_) => 0,
        }
    }

    /// A node is well formed when its style, measure and children are.
    pub open spec fn wf(self) -> bool
        decreases self,
    {
        &&& self.style.wf()
        &&& match self.content {
            Content::Children(cs) => nodes_wf(cs@),
            Content::Measure(m) => m.wf(),
        }
    }

    /// Creates a composite node with the given style and children, in the
    /// order supplied.
    pub fn new(style: Style, children: Vec<Node>) -> (n: Node)
        ensures
            n.style == style,
            n.content == Content::Children(children),
            n.child_count() == children@.len(),
            style.wf() && nodes_wf(children@) ==> n.wf(),
    {
        Node { style, content: Content::Children(children) }
    }

    /// Creates a leaf node with the given style and measurement strategy.
    /// Such a node has no children, whatever the style says.
    pub fn with_measure(style: Style, measure: Measure) -> (n: Node)
        ensures
            n.style == style,
            n.content == Content::Measure(measure),
            n.child_count() == 0,
            style.wf() && measure.wf() ==> n.wf(),
    {
        Node { style, content: Content::Measure(measure) }
    }
}

} // verus!
