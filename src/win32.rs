//! Win32 window messages, taken apart into the engine's native events.
//!
//! A window procedure receives a message number and two machine words; the
//! values it carries sit in 16-bit halves of those words.  This module reads
//! them, so that the driver only has to forward what it receives.
use vstd::prelude::*;

use crate::event::MouseButton;
use crate::geometry::{PhyPoint, PhySize};
use crate::native::NativeEvent;

verus! {

pub const WM_CREATE: u32 = 0x0001;
pub const WM_SIZE: u32 = 0x0005;
pub const WM_CLOSE: u32 = 0x0010;
pub const WM_INPUTLANGCHANGE: u32 = 0x0051;
pub const WM_NCDESTROY: u32 = 0x0082;
pub const WM_KEYDOWN: u32 = 0x0100;
pub const WM_KEYUP: u32 = 0x0101;
pub const WM_CHAR: u32 = 0x0102;
pub const WM_SYSKEYDOWN: u32 = 0x0104;
pub const WM_SYSKEYUP: u32 = 0x0105;
pub const WM_SYSCHAR: u32 = 0x0106;
pub const WM_TIMER: u32 = 0x0113;
pub const WM_MOUSEMOVE: u32 = 0x0200;
pub const WM_LBUTTONDOWN: u32 = 0x0201;
pub const WM_LBUTTONUP: u32 = 0x0202;
pub const WM_RBUTTONDOWN: u32 = 0x0204;
pub const WM_RBUTTONUP: u32 = 0x0205;
pub const WM_MBUTTONDOWN: u32 = 0x0207;
pub const WM_MBUTTONUP: u32 = 0x0208;
pub const WM_MOUSEWHEEL: u32 = 0x020A;
pub const WM_XBUTTONDOWN: u32 = 0x020B;
pub const WM_XBUTTONUP: u32 = 0x020C;
pub const WM_DPICHANGED: u32 = 0x02E0;
pub const WM_USER: u32 = 0x0400;
pub const XBUTTON1: u32 = 0x0001;
pub const XBUTTON2: u32 = 0x0002;

/// The private message by which a handle asks its window to close.
pub const WM_WINDOW_MUST_CLOSE: u32 = WM_USER + 1;

/// The identifier of the frame timer.
pub const FRAME_TIMER_ID: usize = 4242;

/// A window message, classified.
#[derive(Debug, PartialEq, Eq)]
pub enum Win32Message {
    /// The window is being created; no state is bound yet.
    Create,
    /// A key message, for the keyboard collaborator to decode.
    Key { system_key_down: bool },
    /// Everything else, as a native event.
    Event(NativeEvent),
}

/// Bits 0 to 15.
pub open spec fn low_word(v: u32) -> int {
    v as int % 0x10000
}

/// Bits 16 to 31.
pub open spec fn high_word(v: u32) -> int {
    v as int / 0x10000
}

/// A 16-bit word read as a two's-complement number.
pub open spec fn signed_word(w: int) -> int {
    if w >= 0x8000 {
        w - 0x10000
    } else {
        w
    }
}

/// The button of a mouse message, if it names one.
pub open spec fn button_of(msg: u32, wparam: usize) -> Option<MouseButton> {
    if msg == WM_LBUTTONDOWN || msg == WM_LBUTTONUP {
        Some(MouseButton::Left)
    } else if msg == WM_MBUTTONDOWN || msg == WM_MBUTTONUP {
        Some(MouseButton::Middle)
    } else if msg == WM_RBUTTONDOWN || msg == WM_RBUTTONUP {
        Some(MouseButton::Right)
    } else if high_word(wparam as u32) == XBUTTON1 {
        Some(MouseButton::Back)
    } else if high_word(wparam as u32) == XBUTTON2 {
        Some(MouseButton::Forward)
    } else {
        None
    }
}

pub open spec fn is_button_down(msg: u32) -> bool {
    msg == WM_LBUTTONDOWN || msg == WM_MBUTTONDOWN || msg == WM_RBUTTONDOWN || msg
        == WM_XBUTTONDOWN
}

pub open spec fn is_button_up(msg: u32) -> bool {
    msg == WM_LBUTTONUP || msg == WM_MBUTTONUP || msg == WM_RBUTTONUP || msg == WM_XBUTTONUP
}

pub open spec fn is_key_message(msg: u32) -> bool {
    msg == WM_CHAR || msg == WM_SYSCHAR || msg == WM_KEYDOWN || msg == WM_SYSKEYDOWN || msg
        == WM_KEYUP || msg == WM_SYSKEYUP || msg == WM_INPUTLANGCHANGE
}

fn is_mouse_button_down(msg: u32) -> (r: bool)
    ensures
        r == is_button_down(msg),
{
    msg == WM_LBUTTONDOWN || msg == WM_MBUTTONDOWN || msg == WM_RBUTTONDOWN || msg
        == WM_XBUTTONDOWN
}

fn is_mouse_button(msg: u32) -> (r: bool)
    ensures
        r == (is_button_down(msg) || is_button_up(msg)),
{
    is_mouse_button_down(msg) || msg == WM_LBUTTONUP || msg == WM_MBUTTONUP || msg
        == WM_RBUTTONUP || msg == WM_XBUTTONUP
}

fn is_key(msg: u32) -> (r: bool)
    ensures
        r == is_key_message(msg),
{
    msg == WM_CHAR || msg == WM_SYSCHAR || msg == WM_KEYDOWN || msg == WM_SYSKEYDOWN || msg
        == WM_KEYUP || msg == WM_SYSKEYUP || msg == WM_INPUTLANGCHANGE
}

fn low_word_of(v: u32) -> (r: u32)
    ensures
        r == low_word(v),
{
    v % 0x10000
}

fn high_word_of(v: u32) -> (r: u32)
    ensures
        r == high_word(v),
{
    v / 0x10000
}

fn signed_word_of(w: u32) -> (r: i32)
    requires
        w < 0x10000,
    ensures
        r == signed_word(w as int),
{
    if w >= 0x8000 {
        w as i32 - 0x10000
    } else {
        w as i32
    }
}

/// What a window message says, as the engine reads it.
pub open spec fn decoded(msg: u32, wparam: usize, lparam: isize) -> Win32Message {
    let w = wparam as u32;
    let l = lparam as u32;
    if msg == WM_CREATE {
        Win32Message::Create
    } else if msg == WM_MOUSEMOVE {
        let x = signed_word(low_word(l)) as i32;
        let y = signed_word(high_word(l)) as i32;
        Win32Message::Event(NativeEvent::CursorMoved(PhyPoint { x, y }))
    } else if msg == WM_MOUSEWHEEL {
        Win32Message::Event(NativeEvent::WheelScrolled { delta: signed_word(high_word(w)) as i32 })
    } else if is_button_down(msg) || is_button_up(msg) {
        Win32Message::Event(
            match button_of(msg, wparam) {
                Some(button) => NativeEvent::Button { button, pressed: is_button_down(msg) },
                None => NativeEvent::Other,
            },
        )
    } else if msg == WM_TIMER {
        Win32Message::Event(
            if wparam == FRAME_TIMER_ID {
                NativeEvent::FrameTimer
            } else {
                NativeEvent::Other
            },
        )
    } else if msg == WM_CLOSE {
        Win32Message::Event(NativeEvent::CloseRequested)
    } else if msg == WM_WINDOW_MUST_CLOSE {
        Win32Message::Event(NativeEvent::MustClose)
    } else if is_key_message(msg) {
        Win32Message::Key { system_key_down: msg == WM_SYSKEYDOWN }
    } else if msg == WM_SIZE {
        let size = PhySize { width: low_word(l) as u32, height: high_word(l) as u32 };
        Win32Message::Event(NativeEvent::Resized(size))
    } else if msg == WM_DPICHANGED {
        Win32Message::Event(NativeEvent::DpiChanged(low_word(w) as u32))
    } else if msg == WM_NCDESTROY {
        Win32Message::Event(NativeEvent::Destroyed)
    } else {
        Win32Message::Event(NativeEvent::Other)
    }
}

/// Reads a window message.
pub fn decode_message(msg: u32, wparam: usize, lparam: isize) -> (r: Win32Message)
    ensures
        r == decoded(msg, wparam, lparam),
{
    let w: u32 = #[verifier::truncate] (wparam as u32);
    let l: u32 = #[verifier::truncate] (lparam as u32);
    if msg == WM_CREATE {
        Win32Message::Create
    } else if msg == WM_MOUSEMOVE {
        let x = signed_word_of(low_word_of(l));
        let y = signed_word_of(high_word_of(l));
        Win32Message::Event(NativeEvent::CursorMoved(PhyPoint { x, y }))
    } else if msg == WM_MOUSEWHEEL {
        let delta = signed_word_of(high_word_of(w));
        Win32Message::Event(NativeEvent::WheelScrolled { delta })
    } else if is_mouse_button(msg) {
        let pressed = is_mouse_button_down(msg);
        let xbutton = high_word_of(w);
        let button = if msg == WM_LBUTTONDOWN || msg == WM_LBUTTONUP {
            Some(MouseButton::Left)
        } else if msg == WM_MBUTTONDOWN || msg == WM_MBUTTONUP {
            Some(MouseButton::Middle)
        } else if msg == WM_RBUTTONDOWN || msg == WM_RBUTTONUP {
            Some(MouseButton::Right)
        } else if xbutton == XBUTTON1 {
            Some(MouseButton::Back)
        } else if xbutton == XBUTTON2 {
            Some(MouseButton::Forward)
        } else {
            None
        };
        match button {
            Some(button) => Win32Message::Event(NativeEvent::Button { button, pressed }),
            None => Win32Message::Event(NativeEvent::Other),
        }
    } else if msg == WM_TIMER {
        if wparam == FRAME_TIMER_ID {
            Win32Message::Event(NativeEvent::FrameTimer)
        } else {
            Win32Message::Event(NativeEvent::Other)
        }
    } else if msg == WM_CLOSE {
        Win32Message::Event(NativeEvent::CloseRequested)
    } else if msg == WM_WINDOW_MUST_CLOSE {
        Win32Message::Event(NativeEvent::MustClose)
    } else if is_key(msg) {
        Win32Message::Key { system_key_down: msg == WM_SYSKEYDOWN }
    } else if msg == WM_SIZE {
        let width = low_word_of(l);
        let height = high_word_of(l);
        Win32Message::Event(NativeEvent::Resized(PhySize { width, height }))
    } else if msg == WM_DPICHANGED {
        Win32Message::Event(NativeEvent::DpiChanged(low_word_of(w)))
    } else if msg == WM_NCDESTROY {
        Win32Message::Event(NativeEvent::Destroyed)
    } else {
        Win32Message::Event(NativeEvent::Other)
    }
}

} // verus!
