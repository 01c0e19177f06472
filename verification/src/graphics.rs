use vstd::prelude::*;

use crate::geometry::{Point, Rectangle};

verus! {

/// An sRGB color with alpha, as a backend-independent value.
#[derive(Clone, Copy, PartialEq, Eq, Structural, Debug)]
pub struct Color {
    pub r: u8,
    pub g: u8,
    pub b: u8,
    pub a: u8,
}

impl Color {
    /// Opaque white, as a mathematical value.
    pub open spec fn white_spec() -> Color {
        Color { r: 255, g: 255, b: 255, a: 255 }
    }

    /// Opaque white.
    pub fn white() -> (c: Color)
        ensures
            c == Color::white_spec(),
    {
        Color { r: 255, g: 255, b: 255, a: 255 }
    }
}

/// Horizontal anchoring of drawn text inside its bounds.
#[derive(Clone, Copy, PartialEq, Eq, Structural, Debug)]
pub enum HorizontalAlignment {
    Left,
    Center,
    Right,
}

/// Vertical anchoring of drawn text inside its bounds.
#[derive(Clone, Copy, PartialEq, Eq, Structural, Debug)]
pub enum VerticalAlignment {
    Top,
    Center,
    Bottom,
}

/// The cursor affordance a widget asks the runtime to show after a draw
/// pass, given the current pointer position.
#[derive(Clone, Copy, PartialEq, Eq, Structural, Debug)]
pub enum MouseCursor {
    OutOfBounds,
    Idle,
    Pointer,
}

impl MouseCursor {
    /// Combines the affordances two widgets report during one draw pass:
    /// the later one wins unless it reports nothing.
    pub open spec fn merge_spec(self, other: MouseCursor) -> MouseCursor {
        if other == MouseCursor::OutOfBounds {
            self
        } else {
            other
        }
    }

    /// Combines the affordances two widgets report during one draw pass:
    /// the later one wins unless it reports nothing.
    pub fn merge(self, other: MouseCursor) -> (r: MouseCursor)
        ensures
            r == self.merge_spec(other),
    {
        if other == MouseCursor::OutOfBounds {
            self
        } else {
            other
        }
    }
}

/// One call a backend received during a draw pass, with every argument the
/// widget handed it.
pub enum DrawCall {
    Text {
        content: Seq<char>,
        size: int,
        color: Color,
        horizontal_alignment: HorizontalAlignment,
        vertical_alignment: VerticalAlignment,
        bounds: Rectangle,
    },
    Radio {
        is_selected: bool,
        bounds: Rectangle,
        label_bounds: Rectangle,
        cursor_position: Point,
    },
}

/// The ghost record every backend carries: the draw calls it has received,
/// oldest first. The widgets' draw contracts say exactly which calls, with
/// which arguments, one draw pass appends to it.
pub trait DrawRecord {
    /// The draw calls this backend has received so far, oldest first.
    spec fn calls(&self) -> Seq<DrawCall>;
}

} // verus!
