//! What a handler sees of its window, and the handler contract itself.
use vstd::prelude::*;

use crate::cursor::MouseCursor;
use crate::event::{Event, EventStatus};
use crate::geometry::{ScaleFactor, Size};

verus! {

/// The identity of a native window or view (a window handle, a view pointer).
pub type NativeId = u64;

/// How a window picks its scale factor.
#[derive(Clone, Copy, Debug)]
pub enum WindowScalePolicy {
    /// Follow the scale of the display that the window is on.
    SystemScaleFactor,
    /// Use this factor whatever the display.
    ScaleFactor(ScaleFactor),
}

impl WindowScalePolicy {
    pub open spec fn wf(self) -> bool {
        match self {
            WindowScalePolicy::SystemScaleFactor => true,
            WindowScalePolicy::ScaleFactor(s) => s.wf(),
        }
    }

    /// The factor a window starts with: 1 for the system's (until the
    /// display is known), else the fixed one.
    pub open spec fn initial_scale(self) -> ScaleFactor {
        match self {
            WindowScalePolicy::SystemScaleFactor => ScaleFactor { num: 1, den: 1 },
            WindowScalePolicy::ScaleFactor(s) => s,
        }
    }

    pub fn initial_scale_factor(&self) -> (r: ScaleFactor)
        ensures
            r == self.initial_scale(),
    {
        match self {
            WindowScalePolicy::SystemScaleFactor => ScaleFactor::one(),
            WindowScalePolicy::ScaleFactor(s) => *s,
        }
    }
}

/// The window a handler is called with.  Requests made through it are
/// collected here and carried out by the engine once the handler returns.
#[derive(Clone, Copy, Debug)]
pub struct Window {
    native: NativeId,
    close_requested: bool,
    cursor: Option<MouseCursor>,
}

impl Window {
    pub closed spec fn native(self) -> NativeId {
        self.native
    }

    /// The handler asked the window to close.
    pub closed spec fn close_requested(self) -> bool {
        self.close_requested
    }

    /// The cursor shape the handler asked for last, not yet applied.
    pub closed spec fn cursor_request(self) -> Option<MouseCursor> {
        self.cursor
    }

    pub fn new(native: NativeId) -> (r: Window)
        ensures
            r.native() == native,
            !r.close_requested(),
            r.cursor_request() is None,
    {
        Window { native, close_requested: false, cursor: None }
    }

    /// Ask for the window to close; it closes at the next frame tick.
    pub fn close(&mut self)
        ensures
            final(self).close_requested(),
            final(self).native() == old(self).native(),
            final(self).cursor_request() == old(self).cursor_request(),
    {
        self.close_requested = true;
    }

    /// Ask for the cursor to take this shape over the window.
    pub fn set_mouse_cursor(&mut self, cursor: MouseCursor)
        ensures
            final(self).cursor_request() == Some(cursor),
            final(self).native() == old(self).native(),
            final(self).close_requested() == old(self).close_requested(),
    {
        self.cursor = Some(cursor);
    }

    /// The native window or view.
    pub fn native_window(&self) -> (r: NativeId)
        ensures
            r == self.native(),
    {
        self.native
    }

    /// Clears the close request, returning whether there was one.
    pub(crate) fn take_close_request(&mut self) -> (r: bool)
        ensures
            r == old(self).close_requested(),
            !final(self).close_requested(),
            final(self).native() == old(self).native(),
            final(self).cursor_request() == old(self).cursor_request(),
    {
        let r = self.close_requested;
        self.close_requested = false;
        r
    }

    /// Takes the pending cursor request.
    pub(crate) fn take_cursor_request(&mut self) -> (r: Option<MouseCursor>)
        ensures
            r == old(self).cursor_request(),
            final(self).cursor_request() is None,
            final(self).native() == old(self).native(),
            final(self).close_requested() == old(self).close_requested(),
    {
        let r = self.cursor;
        self.cursor = None;
        r
    }

    /// Keeps a close request made before the handler ran.
    pub(crate) fn keep_close_request(&mut self, before: bool)
        ensures
            final(self).close_requested() == (old(self).close_requested() || before),
            final(self).native() == old(self).native(),
            final(self).cursor_request() == old(self).cursor_request(),
    {
        self.close_requested = self.close_requested || before;
    }
}

/// The application's side of a window: called on the window's own thread,
/// once per frame tick and once per event.
pub trait WindowHandler {
    fn on_frame(&mut self, window: &mut Window);

    fn on_event(&mut self, window: &mut Window, event: Event) -> EventStatus;
}

} // verus!
