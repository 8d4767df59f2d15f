use baseview::win32::{
    decode_message, Win32Message, FRAME_TIMER_ID, WM_CLOSE, WM_CREATE, WM_DPICHANGED,
    WM_KEYDOWN, WM_LBUTTONDOWN, WM_MOUSEMOVE, WM_MOUSEWHEEL, WM_NCDESTROY, WM_SIZE,
    WM_SYSKEYDOWN, WM_TIMER, WM_WINDOW_MUST_CLOSE, WM_XBUTTONDOWN, WM_XBUTTONUP,
};
use baseview::{MouseButton, MouseCursor, NativeEvent, PhyPoint, PhySize, SystemCursor};

fn event(msg: u32, wparam: usize, lparam: isize) -> NativeEvent {
    match decode_message(msg, wparam, lparam) {
        Win32Message::Event(e) => e,
        other => panic!("unexpected {:?}", other),
    }
}

#[test]
fn mouse_move_reads_signed_words() {
    // x = -2 (0xFFFE), y = 300
    let lparam = ((300 << 16) | 0xFFFE) as isize;
    assert_eq!(event(WM_MOUSEMOVE, 0, lparam), NativeEvent::CursorMoved(PhyPoint { x: -2, y: 300 }));
    // a negative lparam sign-extends past bit 31; only the low 32 bits count
    let lparam: isize = -1;
    assert_eq!(event(WM_MOUSEMOVE, 0, lparam), NativeEvent::CursorMoved(PhyPoint { x: -1, y: -1 }));
}

#[test]
fn wheel_reads_the_high_word_of_wparam() {
    let wparam = (0xFF88usize << 16) | 0x0008; // -120, with a key-state word below
    assert_eq!(event(WM_MOUSEWHEEL, wparam, 0), NativeEvent::WheelScrolled { delta: -120 });
}

#[test]
fn buttons_carry_their_identity() {
    assert_eq!(
        event(WM_LBUTTONDOWN, 0, 0),
        NativeEvent::Button { button: MouseButton::Left, pressed: true }
    );
    assert_eq!(
        event(WM_XBUTTONUP, 2 << 16, 0),
        NativeEvent::Button { button: MouseButton::Forward, pressed: false }
    );
    assert_eq!(
        event(WM_XBUTTONDOWN, 1 << 16, 0),
        NativeEvent::Button { button: MouseButton::Back, pressed: true }
    );
    assert_eq!(event(WM_XBUTTONDOWN, 3 << 16, 0), NativeEvent::Other);
}

#[test]
fn size_and_dpi_read_unsigned_words() {
    let lparam = ((1200 << 16) | 1600) as isize;
    assert_eq!(event(WM_SIZE, 0, lparam), NativeEvent::Resized(PhySize { width: 1600, height: 1200 }));
    let wparam = (192usize << 16) | 192;
    assert_eq!(event(WM_DPICHANGED, wparam, 0), NativeEvent::DpiChanged(192));
}

#[test]
fn lifecycle_messages() {
    assert_eq!(decode_message(WM_CREATE, 0, 0), Win32Message::Create);
    assert_eq!(event(WM_TIMER, FRAME_TIMER_ID, 0), NativeEvent::FrameTimer);
    assert_eq!(event(WM_TIMER, 1, 0), NativeEvent::Other);
    assert_eq!(event(WM_CLOSE, 0, 0), NativeEvent::CloseRequested);
    assert_eq!(event(WM_WINDOW_MUST_CLOSE, 0, 0), NativeEvent::MustClose);
    assert_eq!(event(WM_NCDESTROY, 0, 0), NativeEvent::Destroyed);
    assert_eq!(event(0x7FFF, 0, 0), NativeEvent::Other);
}

#[test]
fn key_messages_go_to_the_keyboard_collaborator() {
    assert_eq!(decode_message(WM_KEYDOWN, 0, 0), Win32Message::Key { system_key_down: false });
    assert_eq!(decode_message(WM_SYSKEYDOWN, 0, 0), Win32Message::Key { system_key_down: true });
}

#[test]
fn cursors_map_to_stock_cursors() {
    assert_eq!(MouseCursor::Text.to_windows_cursor(), SystemCursor::IBeam);
    assert_eq!(MouseCursor::Pointer.to_windows_cursor(), SystemCursor::Hand);
    assert_eq!(MouseCursor::ColResize.to_windows_cursor(), SystemCursor::SizeWe);
    assert_eq!(MouseCursor::NwResize.to_windows_cursor(), SystemCursor::SizeNwse);
    assert_eq!(MouseCursor::Hidden.to_windows_cursor(), SystemCursor::Arrow);
    assert_eq!(SystemCursor::IBeam.resource_id(), 32513);
    assert_eq!(SystemCursor::Arrow.resource_id(), 32512);
    assert_eq!(SystemCursor::Help.resource_id(), 32651);
}
