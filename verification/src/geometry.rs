use vstd::prelude::*;

verus! {

/// Upper bound on every coordinate and dimension the layout engine handles.
/// Keeping all geometry inside `[0, COORD_LIMIT]` keeps every intermediate
/// sum well inside `i64`.
pub const COORD_LIMIT: i64 = 0x1_0000_0000_0000;

/// A 2D point, in the same coordinate space as resolved layout bounds.
#[derive(Clone, Copy, PartialEq, Eq, Structural, Debug)]
pub struct Point {
    pub x: i64,
    pub y: i64,
}

/// An amount of space in each of the two dimensions.
#[derive(Clone, Copy, PartialEq, Eq, Structural, Debug)]
pub struct Size<T> {
    pub width: T,
    pub height: T,
}

/// One axis of a proposed size: either a definite amount of space or no
/// constraint at all on that axis.
#[derive(Clone, Copy, PartialEq, Eq, Structural, Debug)]
pub enum Number {
    Defined(i64),
    Undefined,
}

impl Number {
    /// A proposed axis is well formed when a definite amount lies in range.
    pub open spec fn wf(self) -> bool {
        match self {
            Number::Defined(v) => 0 <= v <= COORD_LIMIT,
            Number::Undefined => true,
        }
    }
}

impl Size<i64> {
    /// A definite size is well formed when both extents lie in range.
    pub open spec fn wf(self) -> bool {
        &&& 0 <= self.width <= COORD_LIMIT
        &&& 0 <= self.height <= COORD_LIMIT
    }
}

impl Size<Number> {
    /// A proposed size is well formed when both axes are.
    pub open spec fn wf(self) -> bool {
        self.width.wf() && self.height.wf()
    }

    /// A proposal that leaves both axes unconstrained.
    pub fn undefined() -> (s: Size<Number>)
        ensures
            s == (Size { width: Number::Undefined, height: Number::Undefined }),
    {
        Size { width: Number::Undefined, height: Number::Undefined }
    }
}

/// An axis-aligned rectangle: origin plus extent.
#[derive(Clone, Copy, PartialEq, Eq, Structural, Debug)]
pub struct Rectangle {
    pub x: i64,
    pub y: i64,
    pub width: i64,
    pub height: i64,
}

impl Rectangle {
    /// Resolved bounds keep origin and extent in the engine's range.
    pub open spec fn wf(self) -> bool {
        &&& 0 <= self.x <= COORD_LIMIT
        &&& 0 <= self.y <= COORD_LIMIT
        &&& 0 <= self.width <= COORD_LIMIT
        &&& 0 <= self.height <= COORD_LIMIT
    }

    /// Whether a point falls within the rectangle; every edge is inclusive.
    pub open spec fn spec_contains(self, point: Point) -> bool {
        &&& self.x <= point.x <= self.x + self.width
        &&& self.y <= point.y <= self.y + self.height
    }

    /// Whether a point falls within the rectangle; every edge is inclusive.
    pub fn contains(&self, point: Point) -> (r: bool)
        requires
            self.wf(),
        ensures
            r == self.spec_contains(point),
    {
        self.x <= point.x && point.x <= self.x + self.width && self.y <= point.y
            && point.y <= self.y + self.height
    }
}

} // verus!
