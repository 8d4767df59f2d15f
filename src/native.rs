//! What a native layer tells the engine, and what the engine asks of it.
use vstd::prelude::*;

use crate::cursor::MouseCursor;
use crate::event::MouseButton;
use crate::geometry::{PhyPoint, PhySize, WindowInfo};

verus! {

/// The interval of the frame timer, in milliseconds (about 60 Hz).
pub const FRAME_INTERVAL_MS: u32 = 15;

/// A native notification, already taken apart into plain values.
#[derive(Debug, PartialEq, Eq)]
pub enum NativeEvent {
    /// The cursor moved to a position in physical pixels.
    CursorMoved(PhyPoint),
    /// The vertical wheel turned by this many wheel units.
    WheelScrolled { delta: i32 },
    /// A button went down (`pressed`) or up.
    Button { button: MouseButton, pressed: bool },
    /// The frame timer fired.
    FrameTimer,
    /// The system asks the window to close (its close box, say).
    CloseRequested,
    /// The embedder's handle asked the window to close.
    MustClose,
    /// A key message; `event` is what the keyboard collaborator made of it,
    /// `system_key_down` marks the system key that must reach the system.
    Key { event: Option<keyboard_types::KeyboardEvent>, system_key_down: bool },
    /// The window's client area has this physical size now.
    Resized(PhySize),
    /// The display's resolution changed to this many dots per inch.
    DpiChanged(u32),
    /// The native window is about to be destroyed.
    Destroyed,
    /// Anything else.
    Other,
}

/// A native operation that the engine asks the driver to carry out, in order,
/// once the engine has returned.
#[derive(Clone, Copy, Debug, PartialEq, Eq, Structural)]
pub enum NativeAction {
    /// Start the periodic frame timer.
    ArmFrameTimer { interval_ms: u32 },
    /// Stop the frame timer.
    StopFrameTimer,
    /// Capture the pointer for the window.
    CapturePointer,
    /// Release the pointer capture.
    ReleasePointer,
    /// Give the native window the size of this geometry (its physical size
    /// where the system counts pixels, its logical size where it counts points).
    SetSize(WindowInfo),
    /// Show this cursor shape over the window.
    SetCursor(MouseCursor),
    /// Clear the association slot and free the window state.
    ClearSlot,
    /// Destroy the native window or view.
    DestroyNative,
    /// Stop the run loop that a blocking open is parked in.
    StopRunLoop,
}

/// The engine's answer to one native event.
#[derive(Debug)]
pub struct Response {
    pub actions: Vec<NativeAction>,
    /// Hand the native message on to the system's default processing.
    pub pass_to_default: bool,
}

} // verus!
