use vstd::prelude::*;

use crate::geometry::Point;

verus! {

/// The pointer button an input event speaks of.
#[derive(Clone, Copy, PartialEq, Eq, Structural, Debug)]
pub enum MouseButton {
    Left,
    Right,
    Middle,
}

/// Whether a button has just been pressed or just been released.
#[derive(Clone, Copy, PartialEq, Eq, Structural, Debug)]
pub enum ButtonState {
    Pressed,
    Released,
}

/// The closed set of abstract input events the widget tree consumes, in the
/// same coordinate space as resolved layout bounds.
#[derive(Clone, Copy, PartialEq, Eq, Structural, Debug)]
pub enum Event {
    MouseInput { state: ButtonState, button: MouseButton },
    CursorMoved { position: Point },
}

} // verus!
