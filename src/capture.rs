//! Pointer capture, balanced over any number of buttons.
//!
//! A count of buttons held down decides: capture is taken on the first press
//! and released when the last held button is released, never before.
use vstd::prelude::*;

use crate::native::NativeAction;

verus! {

/// The count of held buttons after a press (`down`) or a release, and the
/// capture operation that it calls for.  A release with no button held
/// changes nothing.
pub open spec fn press_step(pressed: int, down: bool) -> (int, Seq<NativeAction>) {
    if down {
        (
            if pressed < usize::MAX { pressed + 1 } else { pressed },
            if pressed == 0 { seq![NativeAction::CapturePointer] } else { seq![] },
        )
    } else {
        (
            if pressed > 0 { pressed - 1 } else { 0 },
            if pressed == 1 { seq![NativeAction::ReleasePointer] } else { seq![] },
        )
    }
}

/// The count of held buttons after a run of presses and releases.
pub open spec fn press_count(pressed: int, run: Seq<bool>) -> int
    decreases run.len(),
{
    if run.len() == 0 {
        pressed
    } else {
        press_step(press_count(pressed, run.drop_last()), run.last()).0
    }
}

/// The capture operations that a run of presses and releases calls for.
pub open spec fn press_actions(pressed: int, run: Seq<bool>) -> Seq<NativeAction>
    decreases run.len(),
{
    if run.len() == 0 {
        seq![]
    } else {
        press_actions(pressed, run.drop_last()) + press_step(
            press_count(pressed, run.drop_last()),
            run.last(),
        ).1
    }
}

/// Presses minus releases in a run.
pub open spec fn balance(run: Seq<bool>) -> int
    decreases run.len(),
{
    if run.len() == 0 {
        0
    } else {
        balance(run.drop_last()) + if run.last() { 1int } else { -1int }
    }
}

/// Applies one press or release to the count of held buttons.
pub fn press_transition(pressed: usize, down: bool) -> (r: (usize, Option<NativeAction>))
    ensures
        r.0 == press_step(pressed as int, down).0,
        press_step(pressed as int, down).1 == (match r.1 {
            Some(a) => seq![a],
            None => seq![],
        }),
{
    if down {
        let next = if pressed < usize::MAX { pressed + 1 } else { pressed };
        let action = if pressed == 0 { Some(NativeAction::CapturePointer) } else { None };
        (next, action)
    } else {
        let next = if pressed > 0 { pressed - 1 } else { 0 };
        let action = if pressed == 1 { Some(NativeAction::ReleasePointer) } else { None };
        (next, action)
    }
}

} // verus!
