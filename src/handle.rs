//! The handle pair: the embedder's remote control of a window, and the
//! window's side of the shared open-state flag.
//!
//! The flag is the only state shared between the two, read and written
//! atomically.  The flag is lowered by the window alone, when it is torn
//! down.  Letting go of a handle is advisory: it does not close the window;
//! an embedder that wants the window gone calls [`WindowHandle::close`].  What a load returns depends on the other side, so every
//! decision that depends on it is made by a function that takes the loaded
//! value as an argument.
use vstd::prelude::*;

use std::sync::atomic::{AtomicBool, Ordering};
use std::sync::Arc;

use crate::geometry::Size;
use crate::window::NativeId;

verus! {

/// A resize that the driver is to carry out on the window's own state.
#[derive(Clone, Copy, Debug, PartialEq, Eq, Structural)]
pub struct ResizeRequest {
    pub window: NativeId,
    pub size: Size,
}

/// The resize a handle asks for, given its target and the state `open` of
/// the flag: none once the window is closed or the handle let go of it.
pub open spec fn resize_target(
    target: Option<NativeId>,
    open: bool,
    size: Size,
) -> Option<ResizeRequest> {
    if open && target is Some {
        Some(ResizeRequest { window: target->0, size })
    } else {
        None
    }
}

/// The window a closing handle sends its close request to: none once the
/// window is closed or the handle let go of it.
pub open spec fn close_target(target: Option<NativeId>, open: bool) -> Option<NativeId> {
    if open {
        target
    } else {
        None
    }
}

/// The native window a handle reports: never a stale one.
pub open spec fn live_target(target: Option<NativeId>, open: bool) -> Option<NativeId> {
    if open {
        target
    } else {
        None
    }
}

/// The embedder's remote control of a window.
pub struct WindowHandle {
    native: Option<NativeId>,
    is_open: Arc<AtomicBool>,
}

/// The window's side of the open-state flag; it lowers the flag when the
/// window is torn down.
pub struct ParentHandle {
    is_open: Arc<AtomicBool>,
}

impl ParentHandle {
    /// A fresh pair for the native window `native`, with the flag raised.
    pub fn new(native: NativeId) -> (r: (ParentHandle, WindowHandle))
        ensures
            r.1.target() == Some(native),
    {
        let is_open = Arc::new(AtomicBool::new(true));
        let handle = WindowHandle { native: Some(native), is_open: Arc::clone(&is_open) };
        (ParentHandle { is_open }, handle)
    }

    /// Lowers the flag: the window is gone.
    pub fn mark_closed(&self) {
        self.is_open.store(false, Ordering::Relaxed);
    }
}

impl WindowHandle {
    /// The native window this handle still addresses, if any: `None` once
    /// the handle was closed.
    pub closed spec fn target(self) -> Option<NativeId> {
        self.native
    }

    /// Not supported by the native layers; the handle is left as it is.
    pub fn request_keyboard_focus(&mut self)
        ensures
            final(self).target() == old(self).target(),
    {
    }

    /// Whether the window is still open, from the shared flag alone.
    pub fn is_open(&self) -> bool {
        self.is_open.load(Ordering::Relaxed)
    }

    /// Asks for a resize of the window, if the flag says it is open.
    pub fn resize(&self, size: Size) -> (r: Option<ResizeRequest>)
        ensures
            r is Some ==> r == Some(ResizeRequest { window: self.target()->0, size }),
            self.target() is None ==> r is None,
    {
        let open = self.is_open();
        self.resize_if_open(open, size)
    }

    /// The resize to carry out, given the state `open` of the flag: none
    /// once the window is closed or the handle let go of it.
    pub fn resize_if_open(&self, open: bool, size: Size) -> (r: Option<ResizeRequest>)
        ensures
            r == resize_target(self.target(), open, size),
    {
        match self.native {
            Some(window) => {
                if open {
                    Some(ResizeRequest { window, size })
                } else {
                    None
                }
            },
            None => None,
        }
    }

    /// Closes the window: the handle lets go of it, and the first call while
    /// the window is open returns the window to send the close request to.
    pub fn close(&mut self) -> (r: Option<NativeId>)
        ensures
            final(self).target() is None,
            r is Some ==> r == old(self).target(),
            old(self).target() is None ==> r is None,
    {
        let open = self.is_open();
        self.close_if_open(open)
    }

    /// Closes the handle given the state `open` of the flag.
    pub fn close_if_open(&mut self, open: bool) -> (r: Option<NativeId>)
        ensures
            final(self).target() is None,
            r == close_target(old(self).target(), open),
    {
        let taken = self.native.take();
        if open {
            taken
        } else {
            None
        }
    }

    /// The native window, while the flag says it is open.
    pub fn native_window(&self) -> (r: Option<NativeId>)
        ensures
            r is Some ==> r == self.target(),
    {
        let open = self.is_open();
        self.native_window_if_open(open)
    }

    /// The native window given the state `open` of the flag: none once the
    /// window is closed, never a stale one.
    pub fn native_window_if_open(&self, open: bool) -> (r: Option<NativeId>)
        ensures
            r == live_target(self.target(), open),
    {
        if open {
            self.native
        } else {
            None
        }
    }
}

} // verus!
