use vstd::prelude::*;

use crate::geometry::{COORD_LIMIT, Number, Rectangle, Size};
use crate::layout::Layout;
use crate::node::{Content, Measure, Node};
use crate::style::{Align, Dimension, Direction};

verus! {

/// Clamps a value into the engine's range `[0, COORD_LIMIT]`. All stacked
/// extents and positions saturate at the range's edges instead of
/// overflowing.
pub open spec fn cap(v: int) -> int {
    if v < 0 {
        0
    } else if v > COORD_LIMIT as int {
        COORD_LIMIT as int
    } else {
        v
    }
}

/// The definite amount of a proposed axis, or a fallback where the axis is
/// unconstrained.
pub open spec fn defined_or(n: Number, fallback: int) -> int {
    match n {
        Number::Defined(v) => v as int,
        Number::Undefined => fallback,
    }
}

/// The width a measurement strategy reports for a proposed width.
pub open spec fn measured_width(m: Measure, pw: Number) -> int {
    match m {
        Measure::Exact(s) => s.width as int,
        Measure::Fill(f) => defined_or(pw, f.width as int),
    }
}

/// The height a measurement strategy reports for a proposed height.
pub open spec fn measured_height(m: Measure, ph: Number) -> int {
    match m {
        Measure::Exact(s) => s.height as int,
        Measure::Fill(f) => defined_or(ph, f.height as int),
    }
}

/// One axis of a node's size: a fixed dimension wins, a percentage takes a
/// share of a definite proposal, and otherwise the content's own extent
/// decides.
pub open spec fn dim_resolve(d: Dimension, proposed: Number, content: int) -> int {
    match d {
        Dimension::Points(v) => v as int,
        Dimension::Percent(p) => match proposed {
            Number::Defined(v) => (v * p) / 100,
            Number::Undefined => content,
        },
        Dimension::Auto => content,
    }
}

/// The main-axis offset at which child `i` of a stacked sequence starts:
/// the extents of the earlier children plus one spacing gap per gap.
pub open spec fn stack_w(cs: Seq<Node>, spacing: int, i: int) -> int
    decreases cs, i,
{
    if i <= 0 || i > cs.len() {
        0
    } else {
        cap(stack_w(cs, spacing, i - 1) + node_w(cs[i - 1], Number::Undefined, Number::Undefined)
            + spacing)
    }
}

/// As `stack_w`, for vertical stacking.
pub open spec fn stack_h(cs: Seq<Node>, spacing: int, i: int) -> int
    decreases cs, i,
{
    if i <= 0 || i > cs.len() {
        0
    } else {
        cap(stack_h(cs, spacing, i - 1) + node_h(cs[i - 1], Number::Undefined, Number::Undefined)
            + spacing)
    }
}

/// The widest of the first `i` children.
pub open spec fn max_w(cs: Seq<Node>, i: int) -> int
    decreases cs, i,
{
    if i <= 0 || i > cs.len() {
        0
    } else {
        let rest = max_w(cs, i - 1);
        let w = node_w(cs[i - 1], Number::Undefined, Number::Undefined);
        if w > rest {
            w
        } else {
            rest
        }
    }
}

/// The tallest of the first `i` children.
pub open spec fn max_h(cs: Seq<Node>, i: int) -> int
    decreases cs, i,
{
    if i <= 0 || i > cs.len() {
        0
    } else {
        let rest = max_h(cs, i - 1);
        let h = node_h(cs[i - 1], Number::Undefined, Number::Undefined);
        if h > rest {
            h
        } else {
            rest
        }
    }
}

/// The resolved width of a node under a proposed size. Children are always
/// measured unconstrained: a row's content is its children stacked with
/// spacing, a column's content is its widest child, and a leaf's content is
/// what its measurement strategy reports.
pub open spec fn node_w(n: Node, pw: Number, ph: Number) -> int
    decreases n, 1int,
{
    let content = match n.content {
        Content::Measure(m) => measured_width(m, pw),
        Content::Children(cs) => match n.style.direction {
            Direction::Row => {
                if cs@.len() == 0 {
                    0
                } else {
                    cap(stack_w(cs@, n.style.spacing as int, cs@.len() - 1) + node_w(
                        cs@[cs@.len() - 1],
                        Number::Undefined,
                        Number::Undefined,
                    ))
                }
            },
            Direction::Column => max_w(cs@, cs@.len() as int),
        },
    };
    cap(dim_resolve(n.style.width, pw, content))
}

/// The resolved height of a node under a proposed size; the vertical
/// counterpart of `node_w`.
pub open spec fn node_h(n: Node, pw: Number, ph: Number) -> int
    decreases n, 1int,
{
    let content = match n.content {
        Content::Measure(m) => measured_height(m, ph),
        Content::Children(cs) => match n.style.direction {
            Direction::Column => {
                if cs@.len() == 0 {
                    0
                } else {
                    cap(stack_h(cs@, n.style.spacing as int, cs@.len() - 1) + node_h(
                        cs@[cs@.len() - 1],
                        Number::Undefined,
                        Number::Undefined,
                    ))
                }
            },
            Direction::Row => max_h(cs@, cs@.len() as int),
        },
    };
    cap(dim_resolve(n.style.height, ph, content))
}

/// How far a child is pushed along the cross axis to align it inside its
/// container's extent on that axis.
pub open spec fn align_offset(a: Align, container: int, child: int) -> int {
    match a {
        Align::Start => 0,
        Align::Center => if container >= child {
            (container - child) / 2
        } else {
            0
        },
        Align::End => if container >= child {
            container - child
        } else {
            0
        },
    }
}

/// The absolute x position of child `i` of a resolved container at `x`.
pub open spec fn child_x(n: Node, pw: Number, ph: Number, x: int, i: int) -> int {
    match n.content {
        Content::Children(cs) => match n.style.direction {
            Direction::Row => cap(x + stack_w(cs@, n.style.spacing as int, i)),
            Direction::Column => cap(
                x + align_offset(
                    n.style.align_items,
                    node_w(n, pw, ph),
                    node_w(cs@[i], Number::Undefined, Number::Undefined),
                ),
            ),
        },
        Content::Measure(_) => x,
    }
}

/// The absolute y position of child `i` of a resolved container at `y`.
pub open spec fn child_y(n: Node, pw: Number, ph: Number, y: int, i: int) -> int {
    match n.content {
        Content::Children(cs) => match n.style.direction {
            Direction::Column => cap(y + stack_h(cs@, n.style.spacing as int, i)),
            Direction::Row => cap(
                y + align_offset(
                    n.style.align_items,
                    node_h(n, pw, ph),
                    node_h(cs@[i], Number::Undefined, Number::Undefined),
                ),
            ),
        },
        Content::Measure(_) => y,
    }
}

/// The full meaning of layout resolution: `l` places node `n` at `(x, y)`
/// under proposal `(pw, ph)` exactly when its bounds carry that position and
/// the node's resolved size, it has one child layout per child node in the
/// same order, and each child layout places its child node at the stacked,
/// aligned position, measured unconstrained.
pub open spec fn resolved(n: Node, pw: Number, ph: Number, x: int, y: int, l: Layout) -> bool
    decreases n, 2int,
{
    &&& l.bounds.x as int == x
    &&& l.bounds.y as int == y
    &&& l.bounds.width as int == node_w(n, pw, ph)
    &&& l.bounds.height as int == node_h(n, pw, ph)
    &&& match n.content {
        Content::Measure(_) => l.children@.len() == 0,
        Content::Children(cs) => {
            &&& l.children@.len() == cs@.len()
            &&& forall|i: int|
                0 <= i < cs@.len() ==> resolved(
                    cs@[i],
                    Number::Undefined,
                    Number::Undefined,
                    child_x(n, pw, ph, x, i),
                    child_y(n, pw, ph, y, i),
                    #[trigger] l.children@[i],
                )
        },
    }
}

/// A layout tree mirrors a node tree's shape: one child layout per child
/// node, in the same order, recursively; a measured node resolves to a
/// childless layout.
pub open spec fn shape_matches(n: Node, l: Layout) -> bool
    decreases n,
{
    match n.content {
        Content::Measure(_) => l.children@.len() == 0,
        Content::Children(cs) => {
            &&& l.children@.len() == cs@.len()
            &&& forall|i: int|
                0 <= i < cs@.len() ==> shape_matches(cs@[i], #[trigger] l.children@[i])
        },
    }
}

/// Law: a resolved layout tree has exactly the same number of children, in
/// the same order, as the node tree it was resolved from, recursively.
pub proof fn lemma_resolved_shape_matches(
    n: Node,
    pw: Number,
    ph: Number,
    x: int,
    y: int,
    l: Layout,
)
    requires
        resolved(n, pw, ph, x, y, l),
    ensures
        shape_matches(n, l),
    decreases n,
{
    match n.content {
        Content::Measure(_) => {},
        Content::Children(cs) => {
            assert forall|i: int| 0 <= i < cs@.len() implies shape_matches(
                cs@[i],
                #[trigger] l.children@[i],
            ) by {
                lemma_resolved_shape_matches(
                    cs@[i],
                    Number::Undefined,
                    Number::Undefined,
                    child_x(n, pw, ph, x, i),
                    child_y(n, pw, ph, y, i),
                    l.children@[i],
                );
            }
        },
    }
}

/// Law: a node built from a sequence of children and resolved at any
/// container size yields a layout with exactly one child per supplied child
/// node, in the order they were supplied, recursively.
pub proof fn lemma_layout_mirrors_supplied_children(n: Node, cs: Vec<Node>, l: Layout)
    requires
        n.content == Content::Children(cs),
        shape_matches(n, l),
    ensures
        l.children@.len() == cs@.len(),
        forall|i: int| 0 <= i < cs@.len() ==> shape_matches(cs@[i], #[trigger] l.children@[i]),
{
}

/// Law: resolution only produces well-formed geometry: every rectangle of a
/// resolved layout tree lies inside the engine's coordinate range.
pub proof fn lemma_resolved_wf(n: Node, pw: Number, ph: Number, x: int, y: int, l: Layout)
    requires
        resolved(n, pw, ph, x, y, l),
        0 <= x <= COORD_LIMIT as int,
        0 <= y <= COORD_LIMIT as int,
    ensures
        l.wf(),
    decreases n,
{
    match n.content {
        Content::Measure(_) => {},
        Content::Children(cs) => {
            assert forall|i: int| 0 <= i < l.children@.len() implies (#[trigger] l.children@[i]).wf()
                by {
                lemma_resolved_wf(
                    cs@[i],
                    Number::Undefined,
                    Number::Undefined,
                    child_x(n, pw, ph, x, i),
                    child_y(n, pw, ph, y, i),
                    l.children@[i],
                );
            }
        },
    }
}

/// Clamps a coordinate into the engine's range.
fn cap_i64(v: i64) -> (r: i64)
    ensures
        r as int == cap(v as int),
{
    if v < 0 {
        0
    } else if v > COORD_LIMIT {
        COORD_LIMIT
    } else {
        v
    }
}

/// The resolved width of a node under a proposed size.
pub fn node_width(n: &Node, pw: Number, ph: Number) -> (w: i64)
    requires
        n.wf(),
        pw.wf(),
        ph.wf(),
    ensures
        w as int == node_w(*n, pw, ph),
    decreases *n, 1int,
{
    let content: i64 = match &n.content {
        Content::Measure(m) => match m {
            Measure::Exact(s) => s.width,
            Measure::Fill(f) => match pw {
                Number::Defined(v) => v,
                Number::Undefined => f.width,
            },
        },
        Content::Children(cs) => match n.style.direction {
            Direction::Row => {
                let k = cs.len();
                if k == 0 {
                    0
                } else {
                    let mut off: i64 = 0;
                    let mut i: usize = 0;
                    while i < k - 1
                        invariant
                            n.wf(),
                            n.content is Children,
                            n.content->Children_0 == *cs,
                            k == cs@.len(),
                            k >= 1,
                            i <= k - 1,
                            off as int == stack_w(cs@, n.style.spacing as int, i as int),
                            0 <= off <= COORD_LIMIT,
                        decreases k - 1 - i,
                    {
                        let cw = node_width(&cs[i], Number::Undefined, Number::Undefined);
                        off = cap_i64(off + cw + n.style.spacing);
                        i = i + 1;
                    }
                    let lw = node_width(&cs[k - 1], Number::Undefined, Number::Undefined);
                    cap_i64(off + lw)
                }
            },
            Direction::Column => {
                let mut best: i64 = 0;
                let mut i: usize = 0;
                while i < cs.len()
                    invariant
                        n.wf(),
                        n.content is Children,
                        n.content->Children_0 == *cs,
                        i <= cs@.len(),
                        best as int == max_w(cs@, i as int),
                        0 <= best <= COORD_LIMIT,
                    decreases cs@.len() - i,
                {
                    let cw = node_width(&cs[i], Number::Undefined, Number::Undefined);
                    if cw > best {
                        best = cw;
                    }
                    i = i + 1;
                }
                best
            },
        },
    };
    match n.style.width {
        Dimension::Points(v) => cap_i64(v),
        Dimension::Percent(p) => match pw {
            Number::Defined(v) => {
                proof {
                    assert(0 <= v * p <= 100 * COORD_LIMIT as int) by (nonlinear_arith)
                        requires
                            0 <= v <= COORD_LIMIT as int,
                            0 <= p <= 100,
                    ;
                }
                cap_i64((v * p) / 100)
            },
            Number::Undefined => cap_i64(content),
        },
        Dimension::Auto => cap_i64(content),
    }
}

/// The resolved height of a node under a proposed size.
pub fn node_height(n: &Node, pw: Number, ph: Number) -> (h: i64)
    requires
        n.wf(),
        pw.wf(),
        ph.wf(),
    ensures
        h as int == node_h(*n, pw, ph),
    decreases *n, 1int,
{
    let content: i64 = match &n.content {
        Content::Measure(m) => match m {
            Measure::Exact(s) => s.height,
            Measure::Fill(f) => match ph {
                Number::Defined(v) => v,
                Number::Undefined => f.height,
            },
        },
        Content::Children(cs) => match n.style.direction {
            Direction::Column => {
                let k = cs.len();
                if k == 0 {
                    0
                } else {
                    let mut off: i64 = 0;
                    let mut i: usize = 0;
                    while i < k - 1
                        invariant
                            n.wf(),
                            n.content is Children,
                            n.content->Children_0 == *cs,
                            k == cs@.len(),
                            k >= 1,
                            i <= k - 1,
                            off as int == stack_h(cs@, n.style.spacing as int, i as int),
                            0 <= off <= COORD_LIMIT,
                        decreases k - 1 - i,
                    {
                        let ch = node_height(&cs[i], Number::Undefined, Number::Undefined);
                        off = cap_i64(off + ch + n.style.spacing);
                        i = i + 1;
                    }
                    let lh = node_height(&cs[k - 1], Number::Undefined, Number::Undefined);
                    cap_i64(off + lh)
                }
            },
            Direction::Row => {
                let mut best: i64 = 0;
                let mut i: usize = 0;
                while i < cs.len()
                    invariant
                        n.wf(),
                        n.content is Children,
                        n.content->Children_0 == *cs,
                        i <= cs@.len(),
                        best as int == max_h(cs@, i as int),
                        0 <= best <= COORD_LIMIT,
                    decreases cs@.len() - i,
                {
                    let ch = node_height(&cs[i], Number::Undefined, Number::Undefined);
                    if ch > best {
                        best = ch;
                    }
                    i = i + 1;
                }
                best
            },
        },
    };
    match n.style.height {
        Dimension::Points(v) => cap_i64(v),
        Dimension::Percent(p) => match ph {
            Number::Defined(v) => {
                proof {
                    assert(0 <= v * p <= 100 * COORD_LIMIT as int) by (nonlinear_arith)
                        requires
                            0 <= v <= COORD_LIMIT as int,
                            0 <= p <= 100,
                    ;
                }
                cap_i64((v * p) / 100)
            },
            Number::Undefined => cap_i64(content),
        },
        Dimension::Auto => cap_i64(content),
    }
}

/// Resolves one node at an absolute position.
fn resolve_at(n: &Node, pw: Number, ph: Number, x: i64, y: i64) -> (l: Layout)
    requires
        n.wf(),
        pw.wf(),
        ph.wf(),
        0 <= x <= COORD_LIMIT,
        0 <= y <= COORD_LIMIT,
    ensures
        resolved(*n, pw, ph, x as int, y as int, l),
    decreases *n, 2int,
{
    let w = node_width(n, pw, ph);
    let h = node_height(n, pw, ph);
    let bounds = Rectangle { x, y, width: w, height: h };
    match &n.content {
        Content::Measure(_) => Layout { bounds, children: Vec::new() },
        Content::Children(cs) => {
            let mut children: Vec<Layout> = Vec::new();
            match n.style.direction {
                Direction::Row => {
                    let mut off: i64 = 0;
                    let mut i: usize = 0;
                    while i < cs.len()
                        invariant
                            n.wf(),
                            n.content is Children,
                            n.content->Children_0 == *cs,
                            n.style.direction == Direction::Row,
                            0 <= x <= COORD_LIMIT,
                            0 <= y <= COORD_LIMIT,
                            i <= cs@.len(),
                            children@.len() == i,
                            off as int == stack_w(cs@, n.style.spacing as int, i as int),
                            0 <= off <= COORD_LIMIT,
                            h as int == node_h(*n, pw, ph),
                            forall|j: int|
                                0 <= j < i ==> resolved(
                                    cs@[j],
                                    Number::Undefined,
                                    Number::Undefined,
                                    child_x(*n, pw, ph, x as int, j),
                                    child_y(*n, pw, ph, y as int, j),
                                    #[trigger] children@[j],
                                ),
                        decreases cs@.len() - i,
                    {
                        let c_h = node_height(&cs[i], Number::Undefined, Number::Undefined);
                        let cx = cap_i64(x + off);
                        let ao: i64 = match n.style.align_items {
                            Align::Start => 0,
                            Align::Center => if h >= c_h {
                                (h - c_h) / 2
                            } else {
                                0
                            },
                            Align::End => if h >= c_h {
                                h - c_h
                            } else {
                                0
                            },
                        };
                        let cy = cap_i64(y + ao);
                        let cl = resolve_at(&cs[i], Number::Undefined, Number::Undefined, cx, cy);
                        children.push(cl);
                        let cw = node_width(&cs[i], Number::Undefined, Number::Undefined);
                        off = cap_i64(off + cw + n.style.spacing);
                        i = i + 1;
                    }
                },
                Direction::Column => {
                    let mut off: i64 = 0;
                    let mut i: usize = 0;
                    while i < cs.len()
                        invariant
                            n.wf(),
                            n.content is Children,
                            n.content->Children_0 == *cs,
                            n.style.direction == Direction::Column,
                            0 <= x <= COORD_LIMIT,
                            0 <= y <= COORD_LIMIT,
                            i <= cs@.len(),
                            children@.len() == i,
                            off as int == stack_h(cs@, n.style.spacing as int, i as int),
                            0 <= off <= COORD_LIMIT,
                            w as int == node_w(*n, pw, ph),
                            forall|j: int|
                                0 <= j < i ==> resolved(
                                    cs@[j],
                                    Number::Undefined,
                                    Number::Undefined,
                                    child_x(*n, pw, ph, x as int, j),
                                    child_y(*n, pw, ph, y as int, j),
                                    #[trigger] children@[j],
                                ),
                        decreases cs@.len() - i,
                    {
                        let c_w = node_width(&cs[i], Number::Undefined, Number::Undefined);
                        let cy = cap_i64(y + off);
                        let ao: i64 = match n.style.align_items {
                            Align::Start => 0,
                            Align::Center => if w >= c_w {
                                (w - c_w) / 2
                            } else {
                                0
                            },
                            Align::End => if w >= c_w {
                                w - c_w
                            } else {
                                0
                            },
                        };
                        let cx = cap_i64(x + ao);
                        let cl = resolve_at(&cs[i], Number::Undefined, Number::Undefined, cx, cy);
                        children.push(cl);
                        let ch = node_height(&cs[i], Number::Undefined, Number::Undefined);
                        off = cap_i64(off + ch + n.style.spacing);
                        i = i + 1;
                    }
                },
            }
            Layout { bounds, children }
        },
    }
}

/// Resolves a node tree against a proposed container size, producing a tree
/// of absolutely positioned rectangles, rooted at the origin, that mirrors
/// the node tree's shape.
pub fn resolve(node: &Node, proposal: Size<Number>) -> (l: Layout)
    requires
        node.wf(),
        proposal.wf(),
    ensures
        resolved(*node, proposal.width, proposal.height, 0, 0, l),
        shape_matches(*node, l),
        l.wf(),
{
    let l = resolve_at(node, proposal.width, proposal.height, 0, 0);
    proof {
        lemma_resolved_shape_matches(*node, proposal.width, proposal.height, 0, 0, l);
        lemma_resolved_wf(*node, proposal.width, proposal.height, 0, 0, l);
    }
    l
}

} // verus!
