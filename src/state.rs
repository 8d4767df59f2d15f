//! The window state: the live record behind a native window, and the engine
//! that decides what each native notification does to it.
//!
//! The engine owns the application's handler.  Native operations are never
//! made from here: each entry point returns the [`NativeAction`]s that the
//! driver performs, in order, after the engine has returned.  Every entry
//! point is specified as a relation between the [`WindowModel`] before and
//! after it; the handler is free code, so a relation leaves open what only
//! the handler decides (whether it asked to close).
use vstd::prelude::*;

use crate::capture::{press_step, press_transition};
use crate::cursor::MouseCursor;
use crate::event::{Event, MouseEvent, ScrollDelta, WindowEvent};
use crate::geometry::{ScaleFactor, Size, WindowInfo};
use crate::handle::ParentHandle;
use crate::native::{NativeAction, NativeEvent, Response, FRAME_INTERVAL_MS};
use crate::window::{NativeId, Window, WindowHandler, WindowScalePolicy};
use crate::window_open_options::WindowOpenOptions;

verus! {

/// Where a window is in its life.  A window that has asked to close but has
/// not yet seen its next frame tick is `Running` with its close latch set.
#[derive(Clone, Copy, Debug, PartialEq, Eq, Structural)]
pub enum Lifecycle {
    /// The state exists; the association slot and the timer are not set up.
    Created,
    /// The slot is bound and the frame timer armed; events are delivered.
    Running,
    /// The close protocol ran: the slot is cleared, nothing is delivered.
    Destroyed,
}

/// One call of the handler.
pub enum Delivery {
    Frame,
    Event(Event),
}

impl Delivery {
    pub open spec fn is_will_close(self) -> bool {
        match self {
            Delivery::Event(e) => e.is_will_close(),
            Delivery::Frame => false,
        }
    }
}

/// No delivery of the sequence is the terminal event.
pub open spec fn no_will_close(s: Seq<Delivery>) -> bool {
    forall|i: int| 0 <= i < s.len() ==> !(#[trigger] s[i]).is_will_close()
}

/// What a window state is, without its handler.
pub struct WindowModel {
    pub lifecycle: Lifecycle,
    pub native: NativeId,
    pub info: WindowInfo,
    pub policy: WindowScalePolicy,
    /// How many mouse buttons are held; the pointer is captured while any is.
    pub pressed: int,
    /// The handler asked to close; the next frame tick closes.
    pub close_latch: bool,
    /// The cursor shape the handler asked for last, not yet shown.
    pub cursor: Option<MouseCursor>,
    /// The window was opened blocking: closing it ends the run loop.
    pub blocking: bool,
    /// Every call of the handler so far, in order.
    pub delivered: Seq<Delivery>,
}

impl WindowModel {
    pub open spec fn is_running(self) -> bool {
        self.lifecycle is Running
    }

    /// The geometry is valid, and the terminal event was delivered exactly
    /// when the window is destroyed, as the last delivery.
    pub open spec fn wf(self) -> bool {
        &&& self.info.wf()
        &&& self.policy.wf()
        &&& 0 <= self.pressed <= usize::MAX
        &&& self.lifecycle is Destroyed ==> {
            &&& self.delivered.len() > 0
            &&& self.delivered.last().is_will_close()
            &&& no_will_close(self.delivered.drop_last())
            &&& !self.close_latch
        }
        &&& !(self.lifecycle is Destroyed) ==> no_will_close(self.delivered)
    }

    /// The handler ran once on `d`; it may have asked to close, and a close
    /// asked for before stays asked for; it may have asked for a cursor.
    pub open spec fn after_delivery(self, d: Delivery, next: WindowModel) -> bool {
        &&& next == WindowModel {
            delivered: self.delivered.push(d),
            close_latch: next.close_latch,
            cursor: next.cursor,
            ..self
        }
        &&& self.close_latch ==> next.close_latch
        &&& self.cursor is Some ==> next.cursor is Some
    }

    /// `next` is `m`, but for a cursor that the handler may have asked for.
    pub open spec fn but_cursor(self, m: WindowModel) -> bool {
        &&& self == WindowModel { cursor: self.cursor, ..m }
        &&& m.cursor is Some ==> self.cursor is Some
    }

    /// The handler's frame hook ran and the close latch was read.
    pub open spec fn framed(self) -> WindowModel {
        WindowModel { delivered: self.delivered.push(Delivery::Frame), close_latch: false, ..self }
    }

    /// The close protocol ran: the window is destroyed after exactly one
    /// terminal event.
    pub open spec fn closed(self) -> WindowModel {
        WindowModel {
            lifecycle: Lifecycle::Destroyed,
            close_latch: false,
            delivered: self.delivered.push(Delivery::Event(Event::Window(WindowEvent::WillClose))),
            ..self
        }
    }

    /// What the close protocol asks of the driver: stop the timer, clear the
    /// slot, release the native window unless it is going already, and end
    /// the run loop of a blocking window.
    pub open spec fn close_actions(self, native_gone: bool) -> Seq<NativeAction> {
        seq![NativeAction::StopFrameTimer, NativeAction::ClearSlot] + (if native_gone {
            seq![]
        } else {
            seq![NativeAction::DestroyNative]
        }) + (if self.blocking {
            seq![NativeAction::StopRunLoop]
        } else {
            seq![]
        })
    }

    /// A frame tick after the actions `before`: the frame hook runs, then a
    /// close asked for (before or by the hook) runs the close protocol.
    pub open spec fn ticked(
        self,
        before: Seq<NativeAction>,
        next: WindowModel,
        acts: Seq<NativeAction>,
    ) -> bool {
        ||| (next.but_cursor(self.framed().closed()) && acts == before + self.close_actions(false))
        ||| (!self.close_latch && next.but_cursor(self.framed()) && acts == before)
    }

    /// The first state of a window opened with `options`.
    pub open spec fn opened(
        self,
        native: NativeId,
        options: WindowOpenOptions,
        blocking: bool,
    ) -> bool {
        &&& self.lifecycle is Created
        &&& self.native == native
        &&& self.info.of_logical(options.size, options.scale.initial_scale())
        &&& self.policy == options.scale
        &&& self.pressed == 0
        &&& !self.close_latch
        &&& self.cursor is None
        &&& self.blocking == blocking
        &&& self.delivered.len() == 0
    }

    /// The window starts running: the frame timer is armed and, where the
    /// window follows the system's scale and the display's differs from the
    /// initial one, the window is resized to the display's scale.
    pub open spec fn started(
        self,
        system_dpi: Option<u32>,
        next: WindowModel,
        acts: Seq<NativeAction>,
    ) -> bool {
        if self.lifecycle is Created {
            let running = WindowModel { lifecycle: Lifecycle::Running, ..self };
            let arm = NativeAction::ArmFrameTimer { interval_ms: FRAME_INTERVAL_MS };
            if self.policy is SystemScaleFactor && system_dpi is Some && system_dpi->0 > 0
                && !self.info.scale().same_value(ScaleFactor { num: system_dpi->0, den: 96 }) {
                &&& next == WindowModel { info: next.info, ..running }
                &&& next.info.of_logical(
                    self.info.logical(),
                    ScaleFactor { num: system_dpi->0, den: 96 },
                )
                &&& acts == seq![arm, NativeAction::SetSize(next.info)]
            } else {
                next == running && acts == seq![arm]
            }
        } else {
            next == self && acts.len() == 0
        }
    }

    /// A programmatic resize to the logical size `size` at the current scale:
    /// the native window is resized, the handler is told of the new geometry,
    /// and a frame tick follows at once.
    pub open spec fn resized_to(self, size: Size, next: WindowModel, acts: Seq<NativeAction>) -> bool {
        if self.is_running() {
            let info = next.info;
            &&& info.of_logical(size, self.info.scale())
            &&& WindowModel {
                info,
                delivered: self.delivered.push(
                    Delivery::Event(Event::Window(WindowEvent::Resized(info))),
                ),
                ..self
            }.ticked(seq![NativeAction::SetSize(info)], next, acts)
        } else {
            next == self && acts.len() == 0
        }
    }

    /// One native event: the state after it, the actions it asks for, and
    /// whether the native message goes on to the system's default processing.
    pub open spec fn step(
        self,
        event: NativeEvent,
        next: WindowModel,
        acts: Seq<NativeAction>,
        pass: bool,
    ) -> bool {
        if !self.is_running() {
            next == self && acts.len() == 0 && pass
        } else {
            match event {
                NativeEvent::CursorMoved(p) => {
                    &&& self.after_delivery(
                        Delivery::Event(
                            Event::Mouse(
                                MouseEvent::CursorMoved {
                                    position: p.to_logical_spec(self.info.scale()),
                                },
                            ),
                        ),
                        next,
                    )
                    &&& acts.len() == 0
                    &&& !pass
                },
                NativeEvent::WheelScrolled { delta } => {
                    &&& self.after_delivery(
                        Delivery::Event(
                            Event::Mouse(
                                MouseEvent::WheelScrolled(ScrollDelta::WheelUnits { x: 0, y: delta }),
                            ),
                        ),
                        next,
                    )
                    &&& acts.len() == 0
                    &&& !pass
                },
                NativeEvent::Button { button, pressed } => {
                    let ev = if pressed {
                        MouseEvent::ButtonPressed(button)
                    } else {
                        MouseEvent::ButtonReleased(button)
                    };
                    &&& WindowModel { pressed: press_step(self.pressed, pressed).0, ..self }.after_delivery(
                        Delivery::Event(Event::Mouse(ev)),
                        next,
                    )
                    &&& acts == press_step(self.pressed, pressed).1
                    &&& pass
                },
                NativeEvent::FrameTimer => self.ticked(seq![], next, acts) && !pass,
                NativeEvent::CloseRequested => {
                    next.but_cursor(self.closed()) && acts == self.close_actions(false) && !pass
                },
                NativeEvent::MustClose => {
                    next.but_cursor(self.closed()) && acts == self.close_actions(false) && !pass
                },
                NativeEvent::Key { event, system_key_down } => {
                    &&& match event {
                        Some(k) => self.after_delivery(Delivery::Event(Event::Keyboard(k)), next),
                        None => next == self,
                    }
                    &&& acts.len() == 0
                    &&& pass == system_key_down
                },
                NativeEvent::Resized(size) => {
                    &&& next.info.of_physical(size, self.info.scale())
                    &&& WindowModel { info: next.info, ..self }.after_delivery(
                        Delivery::Event(Event::Window(WindowEvent::Resized(next.info))),
                        next,
                    )
                    &&& acts.len() == 0
                    &&& pass
                },
                NativeEvent::DpiChanged(dpi) => {
                    &&& if self.policy is SystemScaleFactor && dpi > 0 {
                        &&& next == WindowModel { info: next.info, ..self }
                        &&& next.info.of_logical(
                            self.info.logical(),
                            ScaleFactor { num: dpi, den: 96 },
                        )
                        &&& acts == seq![NativeAction::SetSize(next.info)]
                    } else {
                        next == self && acts.len() == 0
                    }
                    &&& pass
                },
                NativeEvent::Destroyed => {
                    next.but_cursor(self.closed()) && acts == self.close_actions(true) && pass
                },
                NativeEvent::Other => next == self && acts.len() == 0 && pass,
            }
        }
    }
}

/// The geometry a window opened with `options` starts with, or `None` where
/// its fixed scale factor has a zero term.
pub fn initial_window_info(options: &WindowOpenOptions) -> (r: Option<WindowInfo>)
    ensures
        r is Some <==> options.scale.wf(),
        r is Some ==> r->0.wf() && r->0.of_logical(options.size, options.scale.initial_scale()),
{
    let scale = options.scale.initial_scale_factor();
    if scale.num > 0 && scale.den > 0 {
        Some(WindowInfo::from_logical_size(options.size, scale))
    } else {
        None
    }
}

/// The live record behind a native window.
pub struct WindowState<H> {
    handler: H,
    native: NativeId,
    info: WindowInfo,
    policy: WindowScalePolicy,
    pressed: usize,
    lifecycle: Lifecycle,
    close_latch: bool,
    cursor: Option<MouseCursor>,
    blocking: bool,
    parent: Option<ParentHandle>,
    delivered: Ghost<Seq<Delivery>>,
}

impl<H: WindowHandler> View for WindowState<H> {
    type V = WindowModel;

    closed spec fn view(&self) -> WindowModel {
        WindowModel {
            lifecycle: self.lifecycle,
            native: self.native,
            info: self.info,
            policy: self.policy,
            pressed: self.pressed as int,
            close_latch: self.close_latch,
            cursor: self.cursor,
            blocking: self.blocking,
            delivered: self.delivered@,
        }
    }
}

proof fn lemma_push_keeps_no_will_close(s: Seq<Delivery>, d: Delivery)
    requires
        no_will_close(s),
        !d.is_will_close(),
    ensures
        no_will_close(s.push(d)),
{
    assert forall|i: int| 0 <= i < s.push(d).len() implies !(#[trigger] s.push(d)[i]).is_will_close() by {
        if i < s.len() {
            assert(s.push(d)[i] == s[i]);
        }
    }
}

impl<H: WindowHandler> WindowState<H> {
    /// The state of a window just created natively: `handler` is the
    /// application's, `parent` the window's side of the handle pair (embedded
    /// windows only), `blocking` whether the caller is parked in the run loop.
    /// `None` where the options' fixed scale factor has a zero term.
    pub fn new(
        handler: H,
        native: NativeId,
        options: &WindowOpenOptions,
        parent: Option<ParentHandle>,
        blocking: bool,
    ) -> (r: Option<WindowState<H>>)
        ensures
            r is Some <==> options.scale.wf(),
            r is Some ==> r->0@.wf() && r->0@.opened(native, *options, blocking),
    {
        match initial_window_info(options) {
            Some(info) => Some(
                WindowState {
                    handler,
                    native,
                    info,
                    policy: options.scale,
                    pressed: 0,
                    lifecycle: Lifecycle::Created,
                    close_latch: false,
                    cursor: None,
                    blocking,
                    parent,
                    delivered: Ghost(Seq::empty()),
                },
            ),
            None => None,
        }
    }

    pub fn handler(&self) -> &H {
        &self.handler
    }

    pub fn into_handler(self) -> H {
        self.handler
    }

    pub fn window_info(&self) -> (r: WindowInfo)
        ensures
            r == self@.info,
    {
        self.info
    }

    pub fn lifecycle(&self) -> (r: Lifecycle)
        ensures
            r == self@.lifecycle,
    {
        self.lifecycle
    }

    /// Whether the handler's close request waits for the next frame tick.
    pub fn close_pending(&self) -> (r: bool)
        ensures
            r == self@.close_latch,
    {
        self.close_latch
    }

    /// The cursor shape the handler asked for last, once; the driver shows it.
    pub fn take_cursor_request(&mut self) -> (r: Option<MouseCursor>)
        ensures
            r == old(self)@.cursor,
            final(self)@ == (WindowModel { cursor: None, ..old(self)@ }),
    {
        self.cursor.take()
    }

    /// Records what the handler asked of `window` while it ran.
    fn absorb(&mut self, window: Window)
        ensures
            final(self)@ == (WindowModel {
                close_latch: old(self)@.close_latch || window.close_requested(),
                cursor: if window.cursor_request() is Some {
                    window.cursor_request()
                } else {
                    old(self)@.cursor
                },
                ..old(self)@
            }),
    {
        let mut window = window;
        if window.take_close_request() {
            self.close_latch = true;
        }
        let cursor = window.take_cursor_request();
        if cursor.is_some() {
            self.cursor = cursor;
        }
    }

    /// Calls the handler on an event that is not the terminal one.
    fn deliver(&mut self, event: Event)
        requires
            old(self)@.wf(),
            old(self)@.is_running(),
            !event.is_will_close(),
        ensures
            old(self)@.after_delivery(Delivery::Event(event), final(self)@),
            final(self)@.wf(),
    {
        let ghost e = event;
        let mut window = Window::new(self.native);
        let _status = self.handler.on_event(&mut window, event);
        self.absorb(window);
        proof {
            lemma_push_keeps_no_will_close(self.delivered@, Delivery::Event(e));
        }
        self.delivered = Ghost(self.delivered@.push(Delivery::Event(e)));
    }

    /// The close protocol: the slot is cleared and the timer stopped before
    /// the handler sees the terminal event, so that nothing it does then can
    /// start a second teardown; then the native window goes, and the flag of
    /// the handle pair is lowered.
    fn close_protocol(&mut self, before: Vec<NativeAction>, native_gone: bool) -> (r: Vec<
        NativeAction,
    >)
        requires
            old(self)@.wf(),
            old(self)@.is_running(),
        ensures
            final(self)@.but_cursor(old(self)@.closed()),
            r@ == before@ + old(self)@.close_actions(native_gone),
            final(self)@.wf(),
    {
        let mut actions = before;
        self.lifecycle = Lifecycle::Destroyed;
        actions.push(NativeAction::StopFrameTimer);
        actions.push(NativeAction::ClearSlot);
        let mut window = Window::new(self.native);
        let _status = self.handler.on_event(&mut window, Event::Window(WindowEvent::WillClose));
        self.absorb(window);
        self.close_latch = false;
        let ghost earlier = self.delivered@;
        self.delivered = Ghost(
            self.delivered@.push(Delivery::Event(Event::Window(WindowEvent::WillClose))),
        );
        proof {
            assert(self.delivered@.drop_last() =~= earlier);
        }
        if !native_gone {
            actions.push(NativeAction::DestroyNative);
        }
        if self.blocking {
            actions.push(NativeAction::StopRunLoop);
        }
        match &self.parent {
            Some(parent) => parent.mark_closed(),
            None => {},
        }
        proof {
            let a = old(self)@.close_actions(native_gone);
            assert(actions@ =~= before@ + a) by {
                if native_gone {
                    if self.blocking {
                    } else {
                    }
                }
            }
        }
        actions
    }

    /// A frame tick after the actions `before`.
    fn tick(&mut self, before: Vec<NativeAction>) -> (r: Vec<NativeAction>)
        requires
            old(self)@.wf(),
            old(self)@.is_running(),
        ensures
            old(self)@.ticked(before@, final(self)@, r@),
            final(self)@.wf(),
    {
        let was_requested = self.close_latch;
        let mut window = Window::new(self.native);
        self.handler.on_frame(&mut window);
        proof {
            lemma_push_keeps_no_will_close(self.delivered@, Delivery::Frame);
        }
        self.delivered = Ghost(self.delivered@.push(Delivery::Frame));
        self.absorb(window);
        let requested = self.close_latch;
        self.close_latch = false;
        if was_requested || requested {
            self.close_protocol(before, false)
        } else {
            before
        }
    }

    /// Starts the window once its association slot is bound: arms the frame
    /// timer and, where the window follows the system's scale, takes the
    /// display's resolution `system_dpi` into account.
    pub fn start(&mut self, system_dpi: Option<u32>) -> (r: Vec<NativeAction>)
        requires
            old(self)@.wf(),
        ensures
            final(self)@.wf(),
            old(self)@.started(system_dpi, final(self)@, r@),
    {
        let mut actions: Vec<NativeAction> = Vec::new();
        match self.lifecycle {
            Lifecycle::Created => {},
            _ => return actions,
        }
        self.lifecycle = Lifecycle::Running;
        actions.push(NativeAction::ArmFrameTimer { interval_ms: FRAME_INTERVAL_MS });
        proof {
            assert(actions@ =~= seq![NativeAction::ArmFrameTimer { interval_ms: FRAME_INTERVAL_MS }]);
        }
        match self.policy {
            WindowScalePolicy::SystemScaleFactor => match system_dpi {
                Some(dpi) => {
                    if dpi > 0 {
                        let scale = ScaleFactor { num: dpi, den: 96 };
                        if !self.info.scale_factor().equals(&scale) {
                            let info = WindowInfo::from_logical_size(self.info.logical_size(), scale);
                            self.info = info;
                            actions.push(NativeAction::SetSize(info));
                            proof {
                                assert(actions@ =~= seq![
                                    NativeAction::ArmFrameTimer { interval_ms: FRAME_INTERVAL_MS },
                                    NativeAction::SetSize(info),
                                ]);
                            }
                        }
                    }
                },
                None => {},
            },
            WindowScalePolicy::ScaleFactor(_) => {},
        }
        actions
    }

    /// A programmatic resize to the logical size `size`, with the scale
    /// factor in force.  The frame tick that follows stands in for the ones
    /// the system may hold back while it resizes.
    pub fn resize(&mut self, size: Size) -> (r: Vec<NativeAction>)
        requires
            old(self)@.wf(),
        ensures
            final(self)@.wf(),
            old(self)@.resized_to(size, final(self)@, r@),
    {
        match self.lifecycle {
            Lifecycle::Running => {},
            _ => return Vec::new(),
        }
        let info = WindowInfo::from_logical_size(size, self.info.scale_factor());
        self.info = info;
        let ghost base = self@;
        self.deliver(Event::Window(WindowEvent::Resized(info)));
        let mut actions: Vec<NativeAction> = Vec::new();
        actions.push(NativeAction::SetSize(info));
        let ghost mid = self@;
        let r = self.tick(actions);
        proof {
            let resized = WindowModel {
                delivered: base.delivered.push(
                    Delivery::Event(Event::Window(WindowEvent::Resized(info))),
                ),
                ..base
            };
            assert(mid.framed().but_cursor(resized.framed()));
            assert(mid.framed().closed().but_cursor(resized.framed().closed()));
        }
        r
    }

    /// Handles one native event.
    pub fn handle_event(&mut self, event: NativeEvent) -> (r: Response)
        requires
            old(self)@.wf(),
        ensures
            final(self)@.wf(),
            old(self)@.step(event, final(self)@, r.actions@, r.pass_to_default),
    {
        match self.lifecycle {
            Lifecycle::Running => {},
            _ => return Response { actions: Vec::new(), pass_to_default: true },
        }
        match event {
            NativeEvent::CursorMoved(p) => {
                let position = p.to_logical(&self.info);
                self.deliver(Event::Mouse(MouseEvent::CursorMoved { position }));
                Response { actions: Vec::new(), pass_to_default: false }
            },
            NativeEvent::WheelScrolled { delta } => {
                self.deliver(
                    Event::Mouse(MouseEvent::WheelScrolled(ScrollDelta::WheelUnits { x: 0, y: delta })),
                );
                Response { actions: Vec::new(), pass_to_default: false }
            },
            NativeEvent::Button { button, pressed } => {
                let (count, capture) = press_transition(self.pressed, pressed);
                self.pressed = count;
                let ev = if pressed {
                    MouseEvent::ButtonPressed(button)
                } else {
                    MouseEvent::ButtonReleased(button)
                };
                self.deliver(Event::Mouse(ev));
                let mut actions: Vec<NativeAction> = Vec::new();
                match capture {
                    Some(a) => actions.push(a),
                    None => {},
                }
                proof {
                    assert(actions@ =~= press_step(old(self)@.pressed, pressed).1);
                }
                Response { actions, pass_to_default: true }
            },
            NativeEvent::FrameTimer => {
                let actions = self.tick(Vec::new());
                Response { actions, pass_to_default: false }
            },
            NativeEvent::CloseRequested => {
                let actions = self.close_protocol(Vec::new(), false);
                proof {
                    assert(actions@ =~= old(self)@.close_actions(false));
                }
                Response { actions, pass_to_default: false }
            },
            NativeEvent::MustClose => {
                let actions = self.close_protocol(Vec::new(), false);
                proof {
                    assert(actions@ =~= old(self)@.close_actions(false));
                }
                Response { actions, pass_to_default: false }
            },
            NativeEvent::Key { event, system_key_down } => {
                match event {
                    Some(k) => self.deliver(Event::Keyboard(k)),
                    None => {},
                }
                Response { actions: Vec::new(), pass_to_default: system_key_down }
            },
            NativeEvent::Resized(size) => {
                let info = WindowInfo::from_physical_size(size, self.info.scale_factor());
                self.info = info;
                self.deliver(Event::Window(WindowEvent::Resized(info)));
                Response { actions: Vec::new(), pass_to_default: true }
            },
            NativeEvent::DpiChanged(dpi) => {
                let mut actions: Vec<NativeAction> = Vec::new();
                match self.policy {
                    WindowScalePolicy::SystemScaleFactor => {
                        if dpi > 0 {
                            let scale = ScaleFactor { num: dpi, den: 96 };
                            let info = WindowInfo::from_logical_size(self.info.logical_size(), scale);
                            self.info = info;
                            actions.push(NativeAction::SetSize(info));
                        }
                    },
                    WindowScalePolicy::ScaleFactor(_) => {},
                }
                Response { actions, pass_to_default: true }
            },
            NativeEvent::Destroyed => {
                let actions = self.close_protocol(Vec::new(), true);
                proof {
                    assert(actions@ =~= old(self)@.close_actions(true));
                }
                Response { actions, pass_to_default: true }
            },
            NativeEvent::Other => Response { actions: Vec::new(), pass_to_default: true },
        }
    }
}

} // verus!
