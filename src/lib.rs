//! A window lifecycle engine for embeddable plugin windows.
//!
//! The library turns the notifications of a native windowing system into a
//! platform-neutral event stream for an application's [`WindowHandler`], and
//! decides, as a state machine, which native operations a driver has to
//! perform in return (capture the pointer, resize, stop the frame timer,
//! destroy the native window).  The driver owns the native objects; the engine
//! owns the handler and every decision about it.
pub mod capture;
pub mod cursor;
pub mod event;
pub mod geometry;
pub mod handle;
pub mod laws;
pub mod native;
pub mod state;
pub mod win32;
pub mod window;
pub mod window_open_options;

pub use cursor::{MouseCursor, SystemCursor};
pub use event::{Event, EventStatus, MouseButton, MouseEvent, ScrollDelta, WindowEvent};
pub use handle::{ParentHandle, ResizeRequest, WindowHandle};
pub use geometry::{PhyPoint, PhySize, Point, ScaleFactor, Size, WindowInfo};
pub use native::{NativeAction, NativeEvent, Response};
pub use state::{initial_window_info, Delivery, Lifecycle, WindowModel, WindowState};
pub use window::{NativeId, Window, WindowHandler, WindowScalePolicy};
pub use window_open_options::WindowOpenOptions;
