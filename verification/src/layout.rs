use vstd::prelude::*;

use crate::geometry::Rectangle;

verus! {

/// The resolved-geometry counterpart of a node: an absolutely positioned
/// rectangle for this tree position plus the resolved child layouts, in the
/// same order the node's children were supplied. Produced once per layout
/// pass and then only read.
pub struct Layout {
    pub bounds: Rectangle,
    pub children: Vec<Layout>,
}

/// Every layout of a sequence is well formed.
pub open spec fn layouts_wf(ls: Seq<Layout>) -> bool
    decreases ls,
{
    forall|i: int| 0 <= i < ls.len() ==> (#[trigger] ls[i]).wf()
}

impl Layout {
    /// A layout is well formed when every rectangle of the tree is.
    pub open spec fn wf(self) -> bool
        decreases self,
    {
        self.bounds.wf() && layouts_wf(self.children@)
    }

    /// Builds a layout directly from resolved geometry.
    pub fn new(bounds: Rectangle, children: Vec<Layout>) -> (l: Layout)
        ensures
            l.bounds == bounds,
            l.children == children,
            bounds.wf() && layouts_wf(children@) ==> l.wf(),
    {
        Layout { bounds, children }
    }

    /// The absolute bounds of this tree position.
    pub fn bounds(&self) -> (b: Rectangle)
        ensures
            b == self.bounds,
    {
        self.bounds
    }

    /// The resolved child layouts, in the order the node's children were
    /// supplied.
    pub fn children(&self) -> (cs: &Vec<Layout>)
        ensures
            cs == &self.children,
    {
        &self.children
    }
}

} // verus!
