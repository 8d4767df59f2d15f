use baseview::{
    Event, EventStatus, Lifecycle, MouseButton, MouseCursor, MouseEvent, NativeAction,
    NativeEvent, ParentHandle, PhyPoint, PhySize, ScaleFactor, ScrollDelta, Size, Window,
    WindowEvent, WindowHandler, WindowInfo, WindowOpenOptions, WindowScalePolicy, WindowState,
};

#[derive(Default)]
struct Recorder {
    events: Vec<Event>,
    frames: usize,
    close_on_frame: bool,
    close_on_event: bool,
    cursor: Option<MouseCursor>,
}

impl WindowHandler for Recorder {
    fn on_frame(&mut self, window: &mut Window) {
        self.frames += 1;
        if self.close_on_frame {
            window.close();
        }
    }

    fn on_event(&mut self, window: &mut Window, event: Event) -> EventStatus {
        self.events.push(event);
        if self.close_on_event {
            window.close();
        }
        if let Some(c) = self.cursor {
            window.set_mouse_cursor(c);
        }
        EventStatus::Captured
    }
}

fn options(width: u32, height: u32, scale: WindowScalePolicy) -> WindowOpenOptions {
    WindowOpenOptions { title: String::from("test"), size: Size { width, height }, scale }
}

fn running(handler: Recorder, policy: WindowScalePolicy, blocking: bool) -> WindowState<Recorder> {
    let mut state = WindowState::new(handler, 7, &options(800, 600, policy), None, blocking).unwrap();
    state.start(Some(96));
    state
}

fn resized(info: WindowInfo) -> Event {
    Event::Window(WindowEvent::Resized(info))
}

fn will_close_count(state: &WindowState<Recorder>) -> usize {
    state.handler().events.iter().filter(|e| **e == Event::Window(WindowEvent::WillClose)).count()
}

#[test]
fn open_then_dpi_change_resizes_to_the_new_scale() {
    let mut state =
        WindowState::new(Recorder::default(), 1, &options(800, 600, WindowScalePolicy::SystemScaleFactor), None, false)
            .unwrap();
    let start = state.start(Some(96));
    assert_eq!(start, vec![NativeAction::ArmFrameTimer { interval_ms: 15 }]);
    let info = state.window_info();
    assert_eq!(info.logical_size(), Size { width: 800, height: 600 });
    assert_eq!(info.physical_size(), PhySize { width: 800, height: 600 });
    assert!(info.scale_factor().equals(&ScaleFactor::one()));

    let r = state.handle_event(NativeEvent::DpiChanged(192));
    let wanted = WindowInfo::from_logical_size(Size { width: 800, height: 600 }, ScaleFactor::from_dpi(192).unwrap());
    assert_eq!(r.actions, vec![NativeAction::SetSize(wanted)]);
    assert_eq!(wanted.physical_size(), PhySize { width: 1600, height: 1200 });
    assert!(state.handler().events.is_empty());

    state.handle_event(NativeEvent::Resized(PhySize { width: 1600, height: 1200 }));
    let last = state.handler().events.last().unwrap();
    match last {
        Event::Window(WindowEvent::Resized(info)) => {
            assert!(info.scale_factor().equals(&ScaleFactor::new(2, 1).unwrap()));
            assert_eq!(info.logical_size(), Size { width: 800, height: 600 });
            assert_eq!(info.physical_size(), PhySize { width: 1600, height: 1200 });
        }
        other => panic!("unexpected {:?}", other),
    }
}

#[test]
fn three_buttons_hold_capture_until_the_last_release() {
    let orders = [
        [MouseButton::Left, MouseButton::Right, MouseButton::Middle],
        [MouseButton::Middle, MouseButton::Left, MouseButton::Right],
        [MouseButton::Right, MouseButton::Middle, MouseButton::Left],
    ];
    for ups in orders.iter() {
        let mut state = running(Recorder::default(), WindowScalePolicy::SystemScaleFactor, false);
        let mut actions = Vec::new();
        for b in [MouseButton::Left, MouseButton::Right, MouseButton::Middle] {
            actions.push(state.handle_event(NativeEvent::Button { button: b, pressed: true }).actions);
        }
        for b in ups.iter() {
            actions.push(state.handle_event(NativeEvent::Button { button: *b, pressed: false }).actions);
        }
        assert_eq!(actions[0], vec![NativeAction::CapturePointer]);
        for a in &actions[1..5] {
            assert!(a.is_empty());
        }
        assert_eq!(actions[5], vec![NativeAction::ReleasePointer]);
        assert_eq!(state.handler().events.len(), 6);
        assert_eq!(
            state.handler().events[3],
            Event::Mouse(MouseEvent::ButtonReleased(ups[0]))
        );
    }
}

#[test]
fn interleaved_presses_capture_and_release_once_per_run() {
    let mut state = running(Recorder::default(), WindowScalePolicy::SystemScaleFactor, false);
    let seq = [
        (MouseButton::Back, true),
        (MouseButton::Left, true),
        (MouseButton::Back, false),
        (MouseButton::Forward, true),
        (MouseButton::Forward, false),
        (MouseButton::Left, false),
    ];
    let mut all = Vec::new();
    for (button, pressed) in seq {
        all.extend(state.handle_event(NativeEvent::Button { button, pressed }).actions);
    }
    assert_eq!(all, vec![NativeAction::CapturePointer, NativeAction::ReleasePointer]);
}

#[test]
fn release_without_press_releases_nothing() {
    let mut state = running(Recorder::default(), WindowScalePolicy::SystemScaleFactor, false);
    let r = state.handle_event(NativeEvent::Button { button: MouseButton::Left, pressed: false });
    assert!(r.actions.is_empty());
    assert!(r.pass_to_default);
    let r = state.handle_event(NativeEvent::Button { button: MouseButton::Left, pressed: true });
    assert_eq!(r.actions, vec![NativeAction::CapturePointer]);
}

#[test]
fn resize_then_close_reports_the_requested_size() {
    let fixed = WindowScalePolicy::ScaleFactor(ScaleFactor::new(3, 2).unwrap());
    let mut state = running(Recorder::default(), fixed, false);
    let actions = state.resize(Size { width: 333, height: 101 });
    let info = state.window_info();
    assert_eq!(info.physical_size(), PhySize { width: 500, height: 152 });
    assert_eq!(actions, vec![NativeAction::SetSize(info)]);
    assert_eq!(state.handler().frames, 1);
    let r = state.handle_event(NativeEvent::MustClose);
    assert_eq!(
        r.actions,
        vec![NativeAction::StopFrameTimer, NativeAction::ClearSlot, NativeAction::DestroyNative]
    );
    let events = &state.handler().events;
    assert_eq!(events.len(), 2);
    assert_eq!(events[0], resized(info));
    assert_eq!(events[1], Event::Window(WindowEvent::WillClose));
}

#[test]
fn close_twice_runs_the_protocol_once() {
    let mut state = running(Recorder::default(), WindowScalePolicy::SystemScaleFactor, true);
    let first = state.handle_event(NativeEvent::MustClose);
    assert_eq!(
        first.actions,
        vec![
            NativeAction::StopFrameTimer,
            NativeAction::ClearSlot,
            NativeAction::DestroyNative,
            NativeAction::StopRunLoop
        ]
    );
    let second = state.handle_event(NativeEvent::MustClose);
    assert!(second.actions.is_empty());
    let third = state.handle_event(NativeEvent::Destroyed);
    assert!(third.actions.is_empty());
    assert_eq!(will_close_count(&state), 1);
    assert_eq!(state.lifecycle(), Lifecycle::Destroyed);
}

#[test]
fn destroyed_window_ignores_everything() {
    let mut state = running(Recorder::default(), WindowScalePolicy::SystemScaleFactor, false);
    state.handle_event(NativeEvent::CloseRequested);
    let before = state.handler().events.len();
    assert!(state.resize(Size { width: 10, height: 10 }).is_empty());
    for ev in [
        NativeEvent::FrameTimer,
        NativeEvent::CursorMoved(PhyPoint { x: 1, y: 1 }),
        NativeEvent::Button { button: MouseButton::Left, pressed: true },
        NativeEvent::DpiChanged(192),
    ] {
        let r = state.handle_event(ev);
        assert!(r.actions.is_empty());
        assert!(r.pass_to_default);
    }
    assert_eq!(state.handler().events.len(), before);
    assert_eq!(state.handler().frames, 0);
}

#[test]
fn native_destruction_runs_the_protocol_without_destroying_again() {
    let mut state = running(Recorder::default(), WindowScalePolicy::SystemScaleFactor, false);
    let r = state.handle_event(NativeEvent::Destroyed);
    assert_eq!(r.actions, vec![NativeAction::StopFrameTimer, NativeAction::ClearSlot]);
    assert!(r.pass_to_default);
    assert_eq!(will_close_count(&state), 1);
}

#[test]
fn close_request_from_handler_waits_for_the_frame_tick() {
    let handler = Recorder { close_on_event: true, ..Recorder::default() };
    let mut state = running(handler, WindowScalePolicy::SystemScaleFactor, false);
    let r = state.handle_event(NativeEvent::CursorMoved(PhyPoint { x: 4, y: 4 }));
    assert!(r.actions.is_empty());
    assert!(state.close_pending());
    assert_eq!(state.lifecycle(), Lifecycle::Running);
    let r = state.handle_event(NativeEvent::FrameTimer);
    assert_eq!(
        r.actions,
        vec![NativeAction::StopFrameTimer, NativeAction::ClearSlot, NativeAction::DestroyNative]
    );
    assert_eq!(state.handler().frames, 1);
    assert_eq!(will_close_count(&state), 1);
    assert!(!state.close_pending());
}

#[test]
fn frame_tick_without_request_keeps_running() {
    let mut state = running(Recorder::default(), WindowScalePolicy::SystemScaleFactor, false);
    let r = state.handle_event(NativeEvent::FrameTimer);
    assert!(r.actions.is_empty());
    assert!(!r.pass_to_default);
    assert_eq!(state.handler().frames, 1);
    let handler = Recorder { close_on_frame: true, ..Recorder::default() };
    let mut state = running(handler, WindowScalePolicy::SystemScaleFactor, false);
    let r = state.handle_event(NativeEvent::FrameTimer);
    assert_eq!(r.actions.len(), 3);
    assert_eq!(state.lifecycle(), Lifecycle::Destroyed);
}

#[test]
fn events_are_normalized_to_logical_space() {
    let mut state = WindowState::new(
        Recorder::default(),
        3,
        &options(100, 100, WindowScalePolicy::SystemScaleFactor),
        None,
        false,
    )
    .unwrap();
    let start = state.start(Some(192));
    let info = state.window_info();
    assert_eq!(info.physical_size(), PhySize { width: 200, height: 200 });
    assert_eq!(
        start,
        vec![NativeAction::ArmFrameTimer { interval_ms: 15 }, NativeAction::SetSize(info)]
    );
    state.handle_event(NativeEvent::CursorMoved(PhyPoint { x: 31, y: -9 }));
    state.handle_event(NativeEvent::WheelScrolled { delta: -240 });
    let events = &state.handler().events;
    assert_eq!(
        events[0],
        Event::Mouse(MouseEvent::CursorMoved { position: baseview::Point { x: 16, y: -4 } })
    );
    assert_eq!(
        events[1],
        Event::Mouse(MouseEvent::WheelScrolled(ScrollDelta::WheelUnits { x: 0, y: -240 }))
    );
}

#[test]
fn start_runs_once_and_fixed_scale_ignores_the_display() {
    let fixed = WindowScalePolicy::ScaleFactor(ScaleFactor::new(2, 1).unwrap());
    let mut state = WindowState::new(Recorder::default(), 3, &options(10, 20, fixed), None, false).unwrap();
    assert_eq!(state.lifecycle(), Lifecycle::Created);
    assert_eq!(state.start(Some(144)), vec![NativeAction::ArmFrameTimer { interval_ms: 15 }]);
    assert_eq!(state.window_info().physical_size(), PhySize { width: 20, height: 40 });
    assert!(state.start(Some(144)).is_empty());
    let r = state.handle_event(NativeEvent::DpiChanged(144));
    assert!(r.actions.is_empty());
    assert_eq!(state.window_info().physical_size(), PhySize { width: 20, height: 40 });
}

#[test]
fn created_window_delivers_nothing() {
    let mut state = WindowState::new(
        Recorder::default(),
        3,
        &options(10, 20, WindowScalePolicy::SystemScaleFactor),
        None,
        false,
    )
    .unwrap();
    let r = state.handle_event(NativeEvent::FrameTimer);
    assert!(r.actions.is_empty());
    assert!(r.pass_to_default);
    assert_eq!(state.handler().frames, 0);
}

#[test]
fn zero_scale_factor_aborts_the_open() {
    let bad = WindowScalePolicy::ScaleFactor(ScaleFactor { num: 0, den: 1 });
    assert!(baseview::initial_window_info(&options(10, 10, bad)).is_none());
    assert!(WindowState::new(Recorder::default(), 3, &options(10, 10, bad), None, false).is_none());
}

#[test]
fn only_the_system_key_reaches_default_processing() {
    let mut state = running(Recorder::default(), WindowScalePolicy::SystemScaleFactor, false);
    let key = keyboard_types::KeyboardEvent::default();
    let r = state.handle_event(NativeEvent::Key { event: Some(key.clone()), system_key_down: true });
    assert!(r.pass_to_default);
    let r = state.handle_event(NativeEvent::Key { event: Some(key.clone()), system_key_down: false });
    assert!(!r.pass_to_default);
    let r = state.handle_event(NativeEvent::Key { event: None, system_key_down: false });
    assert!(!r.pass_to_default);
    assert_eq!(state.handler().events, vec![Event::Keyboard(key.clone()), Event::Keyboard(key)]);
}

#[test]
fn cursor_requests_are_handed_to_the_driver_once() {
    let handler = Recorder { cursor: Some(MouseCursor::Text), ..Recorder::default() };
    let mut state = running(handler, WindowScalePolicy::SystemScaleFactor, false);
    assert_eq!(state.take_cursor_request(), None);
    state.handle_event(NativeEvent::CursorMoved(PhyPoint { x: 0, y: 0 }));
    assert_eq!(state.take_cursor_request(), Some(MouseCursor::Text));
    assert_eq!(state.take_cursor_request(), None);
}

#[test]
fn os_resize_keeps_the_scale() {
    let fixed = WindowScalePolicy::ScaleFactor(ScaleFactor::new(5, 4).unwrap());
    let mut state = running(Recorder::default(), fixed, false);
    let r = state.handle_event(NativeEvent::Resized(PhySize { width: 1001, height: 500 }));
    assert!(r.actions.is_empty());
    let info = state.window_info();
    assert_eq!(info.logical_size(), Size { width: 801, height: 400 });
    assert_eq!(state.handler().events, vec![resized(info)]);
}

#[test]
fn parent_handle_lowers_the_flag_on_teardown() {
    let (parent, handle) = ParentHandle::new(9);
    let mut state = WindowState::new(
        Recorder::default(),
        9,
        &options(10, 10, WindowScalePolicy::SystemScaleFactor),
        Some(parent),
        false,
    )
    .unwrap();
    state.start(None);
    assert!(handle.is_open());
    state.handle_event(NativeEvent::MustClose);
    assert!(!handle.is_open());
}

#[test]
fn other_messages_go_to_default_processing() {
    let mut state = running(Recorder::default(), WindowScalePolicy::SystemScaleFactor, false);
    let r = state.handle_event(NativeEvent::Other);
    assert!(r.actions.is_empty());
    assert!(r.pass_to_default);
    assert!(state.handler().events.is_empty());
}

#[test]
fn dpi_round_trip_keeps_the_logical_size_at_fractional_scale() {
    let mut state = WindowState::new(
        Recorder::default(),
        5,
        &options(801, 333, WindowScalePolicy::SystemScaleFactor),
        None,
        false,
    )
    .unwrap();
    state.start(None);
    let r = state.handle_event(NativeEvent::DpiChanged(144));
    let requested = match r.actions.as_slice() {
        [NativeAction::SetSize(info)] => *info,
        other => panic!("unexpected {:?}", other),
    };
    // 801 * 1.5 = 1201.5, 333 * 1.5 = 499.5: halves round up
    assert_eq!(requested.physical_size(), PhySize { width: 1202, height: 500 });
    state.handle_event(NativeEvent::Resized(requested.physical_size()));
    let info = state.window_info();
    assert_eq!(info.logical_size(), Size { width: 801, height: 333 });
    assert_eq!(info.physical_size(), PhySize { width: 1202, height: 500 });
    assert_eq!(state.handler().events, vec![resized(info)]);
}

#[test]
fn below_scale_one_the_dpi_round_trip_may_move_the_logical_size() {
    let mut state = WindowState::new(
        Recorder::default(),
        5,
        &options(3, 4, WindowScalePolicy::SystemScaleFactor),
        None,
        false,
    )
    .unwrap();
    state.start(None);
    let r = state.handle_event(NativeEvent::DpiChanged(48));
    let requested = match r.actions.as_slice() {
        [NativeAction::SetSize(info)] => *info,
        other => panic!("unexpected {:?}", other),
    };
    // 3 * 0.5 = 1.5 rounds to 2, and 2 / 0.5 = 4
    assert_eq!(requested.physical_size(), PhySize { width: 2, height: 2 });
    state.handle_event(NativeEvent::Resized(requested.physical_size()));
    assert_eq!(state.window_info().logical_size(), Size { width: 4, height: 4 });
}

#[test]
fn handler_window_collects_requests() {
    let mut window = Window::new(11);
    assert_eq!(window.native_window(), 11);
    window.set_mouse_cursor(MouseCursor::Crosshair);
    window.close();
    let handler = Recorder { close_on_event: true, cursor: Some(MouseCursor::Move), ..Recorder::default() };
    let mut state = running(handler, WindowScalePolicy::SystemScaleFactor, false);
    state.handle_event(NativeEvent::WheelScrolled { delta: 120 });
    assert!(state.close_pending());
    assert_eq!(state.take_cursor_request(), Some(MouseCursor::Move));
}
