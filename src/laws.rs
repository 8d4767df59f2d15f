//! Properties that hold across several calls of the library.
use vstd::prelude::*;

use vstd::arithmetic::div_mod::{lemma_fundamental_div_mod, lemma_fundamental_div_mod_converse};

use crate::capture::{balance, press_actions, press_count, press_step};
use crate::event::{Event, WindowEvent};
use crate::geometry::{round_div, u32_max, ScaleFactor, Size, WindowInfo};
use crate::handle::{close_target, live_target, resize_target};
use crate::native::{NativeAction, NativeEvent};
use crate::state::{no_will_close, Delivery, WindowModel};
use crate::window::NativeId;

verus! {

proof fn lemma_balance_bounded(run: Seq<bool>)
    ensures
        -run.len() <= balance(run) <= run.len(),
    decreases run.len(),
{
    if run.len() > 0 {
        lemma_balance_bounded(run.drop_last());
    }
}

/// While no prefix releases more buttons than it pressed, the count of held
/// buttons is the balance of presses and releases.
proof fn lemma_count_is_balance(run: Seq<bool>, k: int)
    requires
        0 <= k <= run.len(),
        run.len() <= usize::MAX,
        forall|j: int| 0 <= j <= k ==> balance(#[trigger] run.take(j)) >= 0,
    ensures
        press_count(0, run.take(k)) == balance(run.take(k)),
    decreases k,
{
    if k > 0 {
        lemma_count_is_balance(run, k - 1);
        let p = run.take(k);
        assert(p.drop_last() =~= run.take(k - 1));
        lemma_balance_bounded(run.take(k - 1));
        assert(balance(run.take(k)) >= 0);
    } else {
        assert(run.take(0) =~= Seq::<bool>::empty());
    }
}

/// Capture is taken by the first press and not touched again while a button
/// stays held.
proof fn lemma_capture_held(run: Seq<bool>, k: int)
    requires
        1 <= k < run.len(),
        run.len() <= usize::MAX,
        forall|j: int| 1 <= j < run.len() ==> balance(#[trigger] run.take(j)) > 0,
        balance(run) == 0,
    ensures
        press_actions(0, run.take(k)) == seq![NativeAction::CapturePointer],
    decreases k,
{
    assert forall|j: int| 0 <= j <= k implies balance(#[trigger] run.take(j)) >= 0 by {
        if j == 0 {
            assert(run.take(0) =~= Seq::<bool>::empty());
        }
    }
    let p = run.take(k);
    assert(p.drop_last() =~= run.take(k - 1));
    if k == 1 {
        assert(run.take(0) =~= Seq::<bool>::empty());
        assert(balance(p) == balance(run.take(0)) + if p.last() { 1int } else { -1int });
        assert(p.last());
        assert(p.drop_last() =~= Seq::<bool>::empty());
        assert(press_count(0, p.drop_last()) == 0);
        assert(press_actions(0, p.drop_last()) =~= Seq::<NativeAction>::empty());
        assert(press_step(0, true).1 =~= seq![NativeAction::CapturePointer]);
        assert(press_actions(0, p) =~= seq![NativeAction::CapturePointer]);
    } else {
        lemma_capture_held(run, k - 1);
        lemma_count_is_balance(run, k - 1);
        let before = press_count(0, run.take(k - 1));
        assert(before > 0);
        assert(balance(p) == balance(run.take(k - 1)) + if p.last() { 1int } else { -1int });
        assert(!p.last() ==> before != 1);
        assert(press_step(before, p.last()).1 =~= Seq::<NativeAction>::empty());
        assert(press_actions(0, p) =~= seq![NativeAction::CapturePointer]);
    }
}

/// Pointer capture over a run of presses and releases that holds at least
/// one button from its first event until its last: capture is taken once, at
/// the first press, held throughout, and released once, at the last release.
pub proof fn lemma_capture_spans_presses(run: Seq<bool>)
    requires
        2 <= run.len() <= usize::MAX,
        forall|k: int| 1 <= k < run.len() ==> balance(#[trigger] run.take(k)) > 0,
        balance(run) == 0,
    ensures
        press_actions(0, run.take(1)) == seq![NativeAction::CapturePointer],
        forall|k: int| 1 <= k < run.len() ==> press_count(0, #[trigger] run.take(k)) > 0,
        press_count(0, run) == 0,
        press_actions(0, run) == seq![NativeAction::CapturePointer, NativeAction::ReleasePointer],
{
    let n = run.len() as int;
    assert(run.take(n) =~= run);
    assert forall|j: int| 0 <= j <= n implies balance(#[trigger] run.take(j)) >= 0 by {
        if j == 0 {
            assert(run.take(0) =~= Seq::<bool>::empty());
        }
    }
    lemma_capture_held(run, 1);
    assert forall|k: int| 1 <= k < run.len() implies press_count(0, #[trigger] run.take(k)) > 0 by {
        lemma_count_is_balance(run, k);
    }
    lemma_count_is_balance(run, n);
    lemma_capture_held(run, n - 1);
    lemma_count_is_balance(run, n - 1);
    assert(run.drop_last() =~= run.take(n - 1));
    let before = press_count(0, run.take(n - 1));
    assert(balance(run) == balance(run.take(n - 1)) + if run.last() { 1int } else { -1int });
    assert(before == 1 && !run.last());
    assert(press_actions(0, run) =~= seq![
        NativeAction::CapturePointer,
        NativeAction::ReleasePointer,
    ]);
}

/// With a scale of at least 1, a length taken to physical pixels and back
/// is the length it was.
proof fn lemma_rounding_round_trip(l: int, n: int, d: int)
    requires
        l >= 0,
        n >= d > 0,
    ensures
        round_div(round_div(l * n, d) * d, n) == l,
{
    let h = d / 2;
    let g = n / 2;
    let p = round_div(l * n, d);
    lemma_fundamental_div_mod(l * n + h, d);
    lemma_fundamental_div_mod(d, 2);
    lemma_fundamental_div_mod(n, 2);
    let r = (l * n + h) % d;
    assert(l * n + h == d * p + r);
    if d == n {
        lemma_fundamental_div_mod_converse(l * n + h, d, l, h);
        assert(p == l && r == h);
    }
    assert(0 <= p * d + g - l * n < n) by (nonlinear_arith)
        requires
            l * n + h == d * p + r,
            0 <= r < d,
            d == 2 * h + d % 2,
            n == 2 * g + n % 2,
            0 <= d % 2 < 2,
            0 <= n % 2 < 2,
            n >= d,
            d == n ==> r == h,
    ;
    lemma_fundamental_div_mod_converse(p * d + g, n, l, p * d + g - l * n);
}

/// A change of the display's resolution to `dpi`, followed by the size
/// notification that the resize it asks for brings back: the logical size is
/// kept, the scale is the display's, the physical size is the logical size at
/// that scale, and the handler is told of that geometry.
pub proof fn lemma_dpi_change_round_trips(
    m0: WindowModel,
    dpi: u32,
    m1: WindowModel,
    acts1: Seq<NativeAction>,
    pass1: bool,
    m2: WindowModel,
    acts2: Seq<NativeAction>,
    pass2: bool,
)
    requires
        m0.wf(),
        m0.is_running(),
        m0.policy is SystemScaleFactor,
        dpi >= 96,
        round_div(m0.info.logical().width * dpi, 96) <= u32_max(),
        round_div(m0.info.logical().height * dpi, 96) <= u32_max(),
        m0.step(NativeEvent::DpiChanged(dpi), m1, acts1, pass1),
        m1.step(NativeEvent::Resized(m1.info.physical()), m2, acts2, pass2),
    ensures
        acts1 == seq![NativeAction::SetSize(m1.info)],
        m2.info.logical() == m0.info.logical(),
        m2.info.scale() == (ScaleFactor { num: dpi, den: 96 }),
        m2.info.physical().width == m2.info.scale().to_physical(m0.info.logical().width as int),
        m2.info.physical().height == m2.info.scale().to_physical(m0.info.logical().height as int),
        m2.delivered.last() == Delivery::Event(Event::Window(WindowEvent::Resized(m2.info))),
{
    let s = ScaleFactor { num: dpi, den: 96 };
    let lw = m0.info.logical().width as int;
    let lh = m0.info.logical().height as int;
    lemma_round_trip_facts(lw, dpi as int);
    lemma_round_trip_facts(lh, dpi as int);
    lemma_rounding_round_trip(lw, dpi as int, 96);
    lemma_rounding_round_trip(lh, dpi as int, 96);
    assert(m2.info.logical().width == lw);
    assert(m2.info.logical().height == lh);
    assert(m2.info.logical() == m0.info.logical());
}

proof fn lemma_round_trip_facts(l: int, n: int)
    requires
        0 <= l <= u32_max(),
        n >= 96,
    ensures
        round_div(l * n, 96) >= 0,
        round_div(round_div(l * n, 96) * 96, n) >= 0,
{
    assert(l * n >= 0) by (nonlinear_arith)
        requires
            l >= 0,
            n >= 0,
    ;
    let p = round_div(l * n, 96);
    assert(p * 96 >= 0) by (nonlinear_arith)
        requires
            p >= 0,
    ;
}

/// The last geometry that a run of deliveries told the handler of.
pub open spec fn last_resized(s: Seq<Delivery>) -> Option<WindowInfo>
    decreases s.len(),
{
    if s.len() == 0 {
        None
    } else {
        match s.last() {
            Delivery::Event(e) => if e.resized_info() is Some {
                e.resized_info()
            } else {
                last_resized(s.drop_last())
            },
            Delivery::Frame => last_resized(s.drop_last()),
        }
    }
}

/// How many times a run of deliveries holds the terminal event.
pub open spec fn will_close_count(s: Seq<Delivery>) -> nat
    decreases s.len(),
{
    if s.len() == 0 {
        0
    } else {
        will_close_count(s.drop_last()) + if s.last().is_will_close() {
            1nat
        } else {
            0nat
        }
    }
}

/// A resize followed by a close: the last geometry the handler is told of
/// is the requested logical size at the scale in force when the resize was
/// asked for, with the physical size that size times the scale, rounded to
/// the nearest pixel; and the window is closed.
pub proof fn lemma_resize_then_close(
    m0: WindowModel,
    size: Size,
    m1: WindowModel,
    acts1: Seq<NativeAction>,
    close: NativeEvent,
    m2: WindowModel,
    acts2: Seq<NativeAction>,
    pass2: bool,
)
    requires
        m0.wf(),
        m0.is_running(),
        m0.resized_to(size, m1, acts1),
        close is MustClose || close is CloseRequested,
        m1.step(close, m2, acts2, pass2),
    ensures
        m2.lifecycle is Destroyed,
        last_resized(m2.delivered) == Some(m1.info),
        m1.info.logical() == size,
        m1.info.scale() == m0.info.scale(),
        m1.info.physical().width == m0.info.scale().to_physical(size.width as int),
        m1.info.physical().height == m0.info.scale().to_physical(size.height as int),
{
    let resized = Delivery::Event(Event::Window(WindowEvent::Resized(m1.info)));
    let closing = Delivery::Event(Event::Window(WindowEvent::WillClose));
    let d1 = m0.delivered.push(resized);
    let d2 = d1.push(Delivery::Frame);
    let d3 = d2.push(closing);
    assert(m2.delivered == d3);
    assert(d3.drop_last() =~= d2);
    assert(d2.drop_last() =~= d1);
    assert(d3.last() == closing);
    assert(d2.last() == Delivery::Frame);
    assert(d1.last() == resized);
    assert(last_resized(d1) == Some(m1.info));
    assert(last_resized(d2) == last_resized(d1));
    assert(Event::Window(WindowEvent::WillClose).resized_info() is None);
    assert(last_resized(d3) == last_resized(d2));
}

proof fn lemma_none_counts_zero(s: Seq<Delivery>)
    requires
        no_will_close(s),
    ensures
        will_close_count(s) == 0,
    decreases s.len(),
{
    if s.len() > 0 {
        assert(no_will_close(s.drop_last())) by {
            assert forall|i: int| 0 <= i < s.drop_last().len() implies !(
            #[trigger] s.drop_last()[i]).is_will_close() by {
                assert(s.drop_last()[i] == s[i]);
            }
        }
        lemma_none_counts_zero(s.drop_last());
        assert(s.last() == s[s.len() - 1]);
    }
}

/// A window delivers the terminal event at most once: once if it is
/// destroyed, never before.
pub proof fn lemma_will_close_at_most_once(m: WindowModel)
    requires
        m.wf(),
    ensures
        will_close_count(m.delivered) <= 1,
        will_close_count(m.delivered) == 1 <==> m.lifecycle is Destroyed,
{
    if m.lifecycle is Destroyed {
        lemma_none_counts_zero(m.delivered.drop_last());
    } else {
        lemma_none_counts_zero(m.delivered);
    }
}

/// Two close requests in a row: the second changes nothing, asks nothing of
/// the driver and delivers nothing, so the close protocol runs once and the
/// terminal event is delivered at most once.
pub proof fn lemma_close_twice(
    m0: WindowModel,
    m1: WindowModel,
    acts1: Seq<NativeAction>,
    pass1: bool,
    m2: WindowModel,
    acts2: Seq<NativeAction>,
    pass2: bool,
)
    requires
        m0.wf(),
        m0.step(NativeEvent::MustClose, m1, acts1, pass1),
        m1.step(NativeEvent::MustClose, m2, acts2, pass2),
    ensures
        m2 == m1,
        acts2.len() == 0,
        will_close_count(m2.delivered) <= 1,
        m0.is_running() ==> will_close_count(m2.delivered) == 1,
{
    if m0.is_running() {
        assert(m1.delivered.drop_last() =~= m0.delivered);
        assert(m1.wf());
    }
    lemma_will_close_at_most_once(m1);
}

/// A handle sends at most one close request: once it has closed, it
/// addresses no window, whatever the flag says.
pub proof fn lemma_handle_closes_once(open: bool)
    ensures
        close_target(None, open) is None,
{
}

/// Once the open-state flag is down, a handle neither resizes, nor reports,
/// nor closes a window, whatever it held.
pub proof fn lemma_closed_handle_is_inert(target: Option<NativeId>, size: Size)
    ensures
        resize_target(target, false, size) is None,
        close_target(target, false) is None,
        live_target(target, false) is None,
{
}

/// Once destroyed, a window ignores every native event and every resize: it
/// delivers nothing and asks nothing of the driver.
pub proof fn lemma_destroyed_window_is_inert(
    m: WindowModel,
    event: NativeEvent,
    next: WindowModel,
    acts: Seq<NativeAction>,
    pass: bool,
    size: Size,
    resized: WindowModel,
    resize_acts: Seq<NativeAction>,
)
    requires
        m.lifecycle is Destroyed,
        m.step(event, next, acts, pass),
        m.resized_to(size, resized, resize_acts),
    ensures
        next == m,
        acts.len() == 0,
        resized == m,
        resize_acts.len() == 0,
{
}

} // verus!
