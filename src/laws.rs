//! Properties that relate several steps of a surface.
use vstd::prelude::*;

use crate::config::{Transform, WallpaperInfo};
use crate::surface::{
    change_scale_spec, change_size_spec, change_transform_spec, handle_pause_spec,
    load_step_spec, registered_spec, resize_steps, update_info_spec, DecodeStatus,
    GeometryStep, LoadAction, LoadEvent, PauseAction, SurfaceView,
};
use crate::timing::{timer_decision_spec, TimerDecision};

verus! {

/// The state after reconciling the pause intent and, when a timer was asked
/// for, registering it under `token`.
pub open spec fn reconciled(s: SurfaceView, elapsed: u64, token: u64) -> SurfaceView {
    let (next, action) = handle_pause_spec(s, elapsed);
    match action {
        PauseAction::Register(_) => registered_spec(next, token),
        _ => next,
    }
}

/// Reconciling the pause intent a second time, with nothing changed in
/// between, does nothing; a timer is removed only when one runs, and the
/// state it leaves is paused; a timer is asked for only from the paused
/// state.
pub proof fn lemma_pause_reconcile_idempotent(s: SurfaceView, e1: u64, e2: u64, token: u64)
    ensures
        handle_pause_spec(reconciled(s, e1, token), e2) == (
        reconciled(s, e1, token),
        PauseAction::Nothing,
        ),
        handle_pause_spec(s, e1).1 is Cancel ==> s.event_source is Running
            && handle_pause_spec(s, e1).0.event_source is Paused,
        handle_pause_spec(s, e1).1 is Register ==> s.event_source is Paused
            && handle_pause_spec(s, e1).0 == s,
{
}

/// A step of the load loop never lets the failure count reach the limit.
pub proof fn lemma_load_step_keeps_bound(s: SurfaceView, event: LoadEvent)
    requires
        s.wf(),
    ensures
        load_step_spec(s, event).0.wf(),
{
}

/// A decode error ends the in-flight load and counts one more failure; the
/// failure that reaches the limit ends the loop with `true` and resets the
/// count. Neither shows an image nor touches the configuration, the timer
/// or the transition flag.
pub proof fn lemma_decode_error(s: SurfaceView)
    requires
        s.wf(),
    ensures
        ({
            let (next, action) = load_step_spec(s, LoadEvent::Decoded(DecodeStatus::Error));
            &&& next.loading_image is None
            &&& s.loading_image_tries < 4 ==> next.loading_image_tries
                == s.loading_image_tries + 1 && action == LoadAction::PickImage
            &&& s.loading_image_tries == 4 ==> next.loading_image_tries == 0 && action
                == LoadAction::Done(true)
            &&& next.config == s.config
            &&& next.event_source == s.event_source
            &&& next.skip_next_transition == s.skip_next_transition
        }),
{
}

/// One attempt of the load loop whose decode fails: the picker names
/// `image`, no transition runs, and the decoder reports an error.
pub open spec fn failed_attempt(s: SurfaceView, image: (String, usize), current: String) -> (
    SurfaceView,
    Seq<LoadAction>,
) {
    let (s1, a1) = load_step_spec(
        s,
        LoadEvent::Picked { image: Some(image), current, reloading: false },
    );
    let (s2, a2) = load_step_spec(s1, LoadEvent::TransitionRunning(false));
    let (s3, a3) = load_step_spec(s2, LoadEvent::Decoded(DecodeStatus::Error));
    (s3, seq![a1, a2, a3])
}

/// None of the actions hands an image to the renderer or changes the one
/// shown.
pub open spec fn shows_no_image(actions: Seq<LoadAction>) -> bool {
    forall|k: int|
        0 <= k < actions.len() ==> !(actions[k] is Upload || actions[k] is Commit
            || actions[k] is AcknowledgeReload)
}

/// What one failed attempt does, from a state with no load in flight.
pub proof fn lemma_failed_attempt(s: SurfaceView, image: (String, usize), current: String)
    requires
        s.wf(),
        s.loading_image is None,
        image.0@ != current@,
    ensures
        ({
            let (next, actions) = failed_attempt(s, image, current);
            &&& actions.len() == 3
            &&& next.loading_image is None
            &&& next.config == s.config
            &&& next.skip_next_transition == s.skip_next_transition
            &&& shows_no_image(actions)
            &&& actions[0] == LoadAction::CheckTransition
            &&& actions[1] == LoadAction::Decode(image.0)
            &&& s.loading_image_tries < 4 ==> next.loading_image_tries
                == s.loading_image_tries + 1 && actions[2] == LoadAction::PickImage
            &&& s.loading_image_tries == 4 ==> next.loading_image_tries == 0 && actions[2]
                == LoadAction::Done(true)
        }),
{
}

/// Five failed attempts in a row, from a fresh load loop, end it with `true`
/// and the failure count reset; none of them hands an image to the renderer
/// or changes the one shown. Four do not end it.
pub proof fn lemma_five_failures_abandon(
    s: SurfaceView,
    current: String,
    i1: (String, usize),
    i2: (String, usize),
    i3: (String, usize),
    i4: (String, usize),
    i5: (String, usize),
)
    requires
        s.wf(),
        s.loading_image is None,
        s.loading_image_tries == 0,
        i1.0@ != current@,
        i2.0@ != current@,
        i3.0@ != current@,
        i4.0@ != current@,
        i5.0@ != current@,
    ensures
        ({
            let (s1, a1) = failed_attempt(s, i1, current);
            let (s2, a2) = failed_attempt(s1, i2, current);
            let (s3, a3) = failed_attempt(s2, i3, current);
            let (s4, a4) = failed_attempt(s3, i4, current);
            let (s5, a5) = failed_attempt(s4, i5, current);
            &&& a1[2] == LoadAction::PickImage
            &&& a2[2] == LoadAction::PickImage
            &&& a3[2] == LoadAction::PickImage
            &&& a4[2] == LoadAction::PickImage
            &&& a5[2] == LoadAction::Done(true)
            &&& s5.loading_image is None
            &&& s5.loading_image_tries == 0
            &&& s5.config == s.config
            &&& s5.skip_next_transition == s.skip_next_transition
            &&& shows_no_image(a1) && shows_no_image(a2) && shows_no_image(a3)
            &&& shows_no_image(a4) && shows_no_image(a5)
        }),
{
    let (s1, a1) = failed_attempt(s, i1, current);
    lemma_failed_attempt(s, i1, current);
    let (s2, a2) = failed_attempt(s1, i2, current);
    lemma_failed_attempt(s1, i2, current);
    let (s3, a3) = failed_attempt(s2, i3, current);
    lemma_failed_attempt(s2, i3, current);
    let (s4, a4) = failed_attempt(s3, i4, current);
    lemma_failed_attempt(s3, i4, current);
    lemma_failed_attempt(s4, i5, current);
}

/// The skip-transition flag is never set by a step of the load loop or by a
/// configuration reload, and a successful load clears it; the load that
/// clears it starts its transition with no delay.
pub proof fn lemma_skip_consumed_once(
    s: SurfaceView,
    event: LoadEvent,
    new: WallpaperInfo,
    elapsed: u64,
)
    ensures
        load_step_spec(s, event).0.skip_next_transition ==> s.skip_next_transition,
        update_info_spec(s, new, elapsed).0.skip_next_transition == s.skip_next_transition,
        ({
            let (next, action) = load_step_spec(s, event);
            (action is Commit || action is AcknowledgeReload) ==> !next.skip_next_transition
        }),
        ({
            let (next, action) = load_step_spec(s, event);
            s.skip_next_transition ==> (action matches LoadAction::Commit { transition_time, .. }
                ==> transition_time == 0)
        }),
{
}

/// The steps hold a forced end of the transition, followed at once by the
/// queued redraw, and no redraw before it.
pub open spec fn ends_transition_before_draw(steps: Seq<GeometryStep>) -> bool {
    exists|i: int|
        #![trigger steps[i]]
        0 <= i && i + 1 < steps.len() && steps[i] == GeometryStep::ForceTransitionEnd
            && steps[i + 1] == GeometryStep::QueueDraw && forall|k: int|
            0 <= k < i ==> steps[k] != GeometryStep::QueueDraw
}

/// After any change of size, transform or scale, the transition in progress
/// is ended before the redraw is queued.
pub proof fn lemma_resize_ends_transition(
    s: SurfaceView,
    width: i32,
    height: i32,
    transform: Transform,
    scale: i32,
)
    ensures
        ends_transition_before_draw(resize_steps(s)),
        change_size_spec(s, width, height).1.len() > 0 ==> ends_transition_before_draw(
            change_size_spec(s, width, height).1,
        ),
        change_transform_spec(s, transform).1.len() > 0 ==> ends_transition_before_draw(
            change_transform_spec(s, transform).1,
        ),
        change_scale_spec(s, scale).1.len() > 0 ==> ends_transition_before_draw(
            change_scale_spec(s, scale).1,
        ),
{
    let r = resize_steps(s);
    assert(r[3] == GeometryStep::ForceTransitionEnd && r[4] == GeometryStep::QueueDraw);
    assert(forall|k: int| 0 <= k < 3 ==> r[k] != GeometryStep::QueueDraw);
    let (n1, st1) = change_size_spec(s, width, height);
    if st1.len() > 0 {
        let r1 = resize_steps(n1);
        assert(st1[3] == GeometryStep::ForceTransitionEnd && st1[4] == GeometryStep::QueueDraw);
        assert(forall|k: int| 0 <= k < 3 ==> r1[k] != GeometryStep::QueueDraw);
    }
    let (n2, st2) = change_transform_spec(s, transform);
    if st2.len() > 0 {
        let r2 = resize_steps(n2);
        assert(st2[4] == GeometryStep::ForceTransitionEnd && st2[5] == GeometryStep::QueueDraw);
        assert(forall|k: int| 0 <= k < 4 ==> st2[k] != GeometryStep::QueueDraw) by {
            assert forall|k: int| 0 <= k < 4 implies st2[k] != GeometryStep::QueueDraw by {
                if k > 0 {
                    assert(st2[k] == r2[k - 1]);
                }
            }
        }
    }
    let (n3, st3) = change_scale_spec(s, scale);
    if st3.len() > 0 {
        let r3 = resize_steps(n3);
        assert(st3[4] == GeometryStep::ForceTransitionEnd && st3[5] == GeometryStep::QueueDraw);
        assert(forall|k: int| 0 <= k < 4 ==> st3[k] != GeometryStep::QueueDraw) by {
            assert forall|k: int| 0 <= k < 4 implies st3[k] != GeometryStep::QueueDraw by {
                if k > 0 {
                    assert(st3[k] == r3[k - 1]);
                }
            }
        }
    }
}

/// A timer armed at `armed` for a period `d` fires at `armed + d`. When the
/// image was changed by hand at `changed`, after the timer was armed and no
/// later than it fires, the timer fires again at `changed + d` instead of
/// changing the image, and at that time, with no other change, it advances
/// to the next image.
pub proof fn lemma_manual_change_restarts_period(d: u64, armed: u64, changed: u64)
    requires
        armed < changed <= armed + d,
        armed + d <= u64::MAX,
    ensures
        ({
            let fire = (armed + d) as u64;
            match timer_decision_spec(Some(d), (fire - changed) as u64) {
                TimerDecision::Reschedule(delay) => fire + delay == changed + d,
                _ => false,
            }
        }),
        timer_decision_spec(Some(d), d) == TimerDecision::Advance(d),
{
}

} // verus!
