use vstd::prelude::*;

verus! {

/// The state of a surface's rotation timer.
#[derive(Clone, Copy, Debug, PartialEq, Eq, Structural)]
pub enum EventSource {
    /// No timer is registered.
    NotSet,
    /// A timer is registered with the event loop under this token.
    Running(u64),
    /// The rotation is paused; holds the milliseconds that were left on the
    /// timer when it was removed, used to arm the next one.
    Paused(u64),
}

/// What a fired rotation timer asks for.
#[derive(Clone, Copy, Debug, PartialEq, Eq, Structural)]
pub enum TimerDecision {
    /// The surface no longer rotates: remove the timer.
    Drop,
    /// The image changed since the timer was armed: fire again after this
    /// many milliseconds, without changing the image.
    Reschedule(u64),
    /// A full period has elapsed: show the next image, then fire again after
    /// this many milliseconds.
    Advance(u64),
}

/// What is left of `duration` once `elapsed` has passed.
pub open spec fn remaining_spec(duration: u64, elapsed: u64) -> Option<u64> {
    if elapsed >= duration {
        None
    } else {
        Some((duration - elapsed) as u64)
    }
}

/// What a timer that fires `elapsed` milliseconds after the current image was
/// set does, when the surface rotates every `duration` milliseconds.
pub open spec fn timer_decision_spec(duration: Option<u64>, elapsed: u64) -> TimerDecision {
    match duration {
        None => TimerDecision::Drop,
        Some(d) => match remaining_spec(d, elapsed) {
            Some(r) => TimerDecision::Reschedule(r),
            None => TimerDecision::Advance(d),
        },
    }
}

/// What is left of a rotation period of `duration` milliseconds once
/// `elapsed` milliseconds have passed, or `None` when nothing is left.
pub fn remaining_duration(duration: u64, elapsed: u64) -> (r: Option<u64>)
    ensures
        r == remaining_spec(duration, elapsed),
        r matches Some(x) ==> 0 < x <= duration,
{
    if duration <= elapsed {
        None
    } else {
        Some(duration - elapsed)
    }
}

/// Decision of a rotation timer that fires `elapsed` milliseconds after the
/// current image was set.
pub fn timer_decision(duration: Option<u64>, elapsed: u64) -> (r: TimerDecision)
    ensures
        r == timer_decision_spec(duration, elapsed),
{
    match duration {
        None => TimerDecision::Drop,
        Some(d) => match remaining_duration(d, elapsed) {
            Some(rem) => TimerDecision::Reschedule(rem),
            None => TimerDecision::Advance(d),
        },
    }
}

} // verus!
