//! The platform-neutral events that a window delivers to its handler.
use vstd::prelude::*;

use crate::geometry::{Point, WindowInfo};

verus! {

/// Relies on `keyboard_types::KeyboardEvent` as a value that is carried from
/// the keyboard collaborator to the handler unopened; nothing is assumed of
/// its contents.
#[verifier::external_type_specification]
#[verifier::external_body]
pub struct ExKeyboardEvent(keyboard_types::KeyboardEvent);

/// One wheel notch is this many wheel units (a `WHEEL_DELTA`).
pub const WHEEL_UNITS_PER_LINE: i32 = 120;

/// A mouse button; every button has its own identity.
#[derive(Clone, Copy, Debug, PartialEq, Eq, Structural)]
pub enum MouseButton {
    Left,
    Middle,
    Right,
    Back,
    Forward,
    Other(u8),
}

/// How far a wheel turned, in wheel units ([`WHEEL_UNITS_PER_LINE`] to a line).
#[derive(Clone, Copy, Debug, PartialEq, Eq, Structural)]
pub enum ScrollDelta {
    WheelUnits { x: i32, y: i32 },
}

#[derive(Clone, Copy, Debug, PartialEq, Eq, Structural)]
pub enum MouseEvent {
    /// The cursor moved to a position in logical points.
    CursorMoved { position: Point },
    ButtonPressed(MouseButton),
    ButtonReleased(MouseButton),
    WheelScrolled(ScrollDelta),
}

#[derive(Clone, Copy, Debug, PartialEq, Eq, Structural)]
pub enum WindowEvent {
    /// The window has this geometry now.
    Resized(WindowInfo),
    /// The window is about to go; it is still nominally alive.
    WillClose,
}

#[derive(Debug, PartialEq, Eq)]
pub enum Event {
    Mouse(MouseEvent),
    Keyboard(keyboard_types::KeyboardEvent),
    Window(WindowEvent),
}

/// What a handler did with an event.
#[derive(Clone, Copy, Debug, PartialEq, Eq, Structural)]
pub enum EventStatus {
    Captured,
    Ignored,
}

impl Event {
    /// The terminal event of a window.
    pub open spec fn is_will_close(self) -> bool {
        self matches Event::Window(WindowEvent::WillClose)
    }

    /// A resize report, with its geometry.
    pub open spec fn resized_info(self) -> Option<WindowInfo> {
        match self {
            Event::Window(WindowEvent::Resized(info)) => Some(info),
            _ => None,
        }
    }
}

} // verus!
