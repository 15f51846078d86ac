use vstd::prelude::*;
use crate::error::PacerError;
use crate::protocol::{DeviceAction, DeviceEvent, PacerState, Phase};

verus! {

/// One call on the pacer: a step of a hand-over with the event reported, or a
/// submit with the image-available semaphore.
pub enum Call {
    Drive(DeviceEvent),
    Submit(u64),
}

/// The state after one call.
pub open spec fn step(s: PacerState, c: Call) -> PacerState {
    match c {
        Call::Drive(e) => s.advance(e),
        Call::Submit(_) => s.after_submit(),
    }
}

/// The state after a sequence of calls, first call first.
pub open spec fn run(s: PacerState, calls: Seq<Call>) -> PacerState
    decreases calls.len(),
{
    if calls.len() == 0 {
        s
    } else {
        step(run(s, calls.drop_last()), calls.last())
    }
}

/// The action, if any, with which the pacer answers a call in state `s`.
pub open spec fn answer(s: PacerState, c: Call) -> Option<DeviceAction> {
    match c {
        Call::Drive(e) => match s.respond(e) {
            Ok(a) => Some(a),
            Err(_) => None,
        },
        Call::Submit(_) => None,
    }
}

/// The timeline values handed out with recording buffers over a sequence of
/// calls, in the order in which they were handed out.
pub open spec fn targets(s: PacerState, calls: Seq<Call>) -> Seq<u64>
    decreases calls.len(),
{
    if calls.len() == 0 {
        Seq::empty()
    } else {
        let earlier = targets(s, calls.drop_last());
        match answer(run(s, calls.drop_last()), calls.last()) {
            Some(DeviceAction::Record { target, .. }) => earlier.push(target),
            _ => earlier,
        }
    }
}

/// The timeline values that the submissions built over a sequence of calls
/// signal, in the order of the submissions.
pub open spec fn signals(s: PacerState, calls: Seq<Call>) -> Seq<u64>
    decreases calls.len(),
{
    if calls.len() == 0 {
        Seq::empty()
    } else {
        let earlier = signals(s, calls.drop_last());
        match calls.last() {
            Call::Submit(image_available) => match run(s, calls.drop_last()).submission(
                image_available,
            ) {
                Ok(submission) => earlier.push(submission.timeline_value),
                Err(_) => earlier,
            },
            Call::Drive(_) => earlier,
        }
    }
}

/// How many waits on the timeline were requested over a sequence of calls.
pub open spec fn waits(s: PacerState, calls: Seq<Call>) -> nat
    decreases calls.len(),
{
    if calls.len() == 0 {
        0
    } else {
        let earlier = waits(s, calls.drop_last());
        match answer(run(s, calls.drop_last()), calls.last()) {
            Some(DeviceAction::WaitUntil { .. }) => earlier + 1,
            _ => earlier,
        }
    }
}

/// How many pool resets were requested over a sequence of calls.
pub open spec fn resets(s: PacerState, calls: Seq<Call>) -> nat
    decreases calls.len(),
{
    if calls.len() == 0 {
        0
    } else {
        let earlier = resets(s, calls.drop_last());
        match answer(run(s, calls.drop_last()), calls.last()) {
            Some(DeviceAction::ResetPool { .. }) => earlier + 1,
            _ => earlier,
        }
    }
}

/// How many waits ended without their value reached (timed out or failed)
/// over a sequence of calls.
pub open spec fn abandoned_waits(s: PacerState, calls: Seq<Call>) -> nat
    decreases calls.len(),
{
    if calls.len() == 0 {
        0
    } else {
        let earlier = abandoned_waits(s, calls.drop_last());
        let before = run(s, calls.drop_last());
        if before.phase == Phase::Waiting && step(before, calls.last()).phase == Phase::Idle {
            earlier + 1
        } else {
            earlier
        }
    }
}

/// Every call keeps the invariant, leaves the ring and the handles as they
/// are, and never lowers the frame index, the submitted count or the reached
/// value.
pub proof fn lemma_step_keeps_invariant(s: PacerState, c: Call)
    requires
        s.wf(),
    ensures
        step(s, c).wf(),
        step(s, c).pools == s.pools,
        step(s, c).buffers == s.buffers,
        step(s, c).timeline == s.timeline,
        step(s, c).frame_index >= s.frame_index,
        step(s, c).submitted >= s.submitted,
        step(s, c).reached >= s.reached,
{
}

/// Bounded frames in flight: after any sequence of calls on a well-formed
/// pacer, the frames handed out and not yet seen completed on the timeline
/// are at most as many as the ring has slots.
pub proof fn lemma_in_flight_bounded(s: PacerState, calls: Seq<Call>)
    requires
        s.wf(),
    ensures
        run(s, calls).wf(),
        run(s, calls).slots() == s.slots(),
        run(s, calls).in_flight() <= s.slots(),
        run(s, calls).frame_index >= s.frame_index,
    decreases calls.len(),
{
    if calls.len() > 0 {
        lemma_in_flight_bounded(s, calls.drop_last());
        lemma_step_keeps_invariant(run(s, calls.drop_last()), calls.last());
    }
}

/// No premature reset: when the pacer asks for a pool to be reset, the ring
/// has been filled, the pool is that of the next frame's slot, and the event
/// that it answers reports the timeline at or past the value signalled by the
/// frame that last used the slot, one ring earlier; the pacer then holds that
/// value as reached.
pub proof fn lemma_reset_follows_signal(s: PacerState, e: DeviceEvent)
    requires
        s.wf(),
        s.respond(e) matches Ok(DeviceAction::ResetPool { .. }),
    ensures
        s.frame_index >= s.slots(),
        s.respond(e) == Ok::<DeviceAction, PacerError>(s.reset_action()),
        e matches DeviceEvent::TimelineReached(v) && v >= s.frame_index - s.slots() + 1,
        s.advance(e).reached >= s.frame_index - s.slots() + 1,
        s.advance(e).frame_index == s.frame_index,
{
}

/// Consecutive targets: the timeline values handed out over any sequence of
/// calls are the successors of the starting frame index, each one more than
/// the one before, with none skipped or repeated.
pub proof fn lemma_targets_consecutive(s: PacerState, calls: Seq<Call>)
    requires
        s.wf(),
    ensures
        targets(s, calls).len() == run(s, calls).frame_index - s.frame_index,
        forall|i: int|
            0 <= i < targets(s, calls).len() ==> #[trigger] targets(s, calls)[i] == s.frame_index
                + 1 + i,
    decreases calls.len(),
{
    if calls.len() > 0 {
        let front = calls.drop_last();
        lemma_targets_consecutive(s, front);
        lemma_in_flight_bounded(s, front);
    }
}

/// Consecutive signals: the values that the submissions over any sequence of
/// calls signal on the timeline are the successors of the number of frames
/// submitted before, none skipped or repeated, so the timeline only ever
/// moves forward by one.
pub proof fn lemma_signals_consecutive(s: PacerState, calls: Seq<Call>)
    requires
        s.wf(),
    ensures
        signals(s, calls).len() == run(s, calls).submitted - s.submitted,
        forall|i: int|
            0 <= i < signals(s, calls).len() ==> #[trigger] signals(s, calls)[i] == s.submitted + 1
                + i,
    decreases calls.len(),
{
    if calls.len() > 0 {
        let front = calls.drop_last();
        lemma_signals_consecutive(s, front);
        lemma_in_flight_bounded(s, front);
    }
}

/// Submission order is acquisition order: from a pacer with every handed-out
/// frame submitted, the values signalled by the submissions are, one for one
/// and in order, the values handed out with the recording buffers; a frame
/// is never submitted before it was acquired.
pub proof fn lemma_signals_follow_targets(s: PacerState, calls: Seq<Call>)
    requires
        s.wf(),
        s.submitted == s.frame_index,
    ensures
        signals(s, calls).len() <= targets(s, calls).len(),
        forall|i: int|
            0 <= i < signals(s, calls).len() ==> #[trigger] signals(s, calls)[i] == targets(
                s,
                calls,
            )[i],
{
    lemma_signals_consecutive(s, calls);
    lemma_targets_consecutive(s, calls);
    lemma_in_flight_bounded(s, calls);
}

/// No wait on the initial fill: while fewer frames have been handed out than
/// the ring has slots, no event is answered with a wait or a reset, and an
/// acquire on an idle pacer is answered with the begin of the next slot's
/// buffer.
pub proof fn lemma_initial_fill_never_waits(s: PacerState, e: DeviceEvent)
    requires
        s.wf(),
        s.frame_index < s.slots(),
    ensures
        !(s.respond(e) matches Ok(DeviceAction::WaitUntil { .. })),
        !(s.respond(e) matches Ok(DeviceAction::ResetPool { .. })),
        s.phase == Phase::Idle && e == DeviceEvent::Acquire ==> s.respond(e) == Ok::<
            DeviceAction,
            PacerError,
        >(s.begin_action()),
{
}

/// One wait per recycle, step by step: once the ring is filled, an acquire
/// of a slot whose last frame was submitted is answered with the wait for
/// that frame's value; a wait is requested only by an idle pacer and a reset
/// only by a waiting one; and a waiting pacer requests no further wait.
pub proof fn lemma_wait_precedes_reset(s: PacerState, e: DeviceEvent)
    requires
        s.wf(),
    ensures
        s.phase == Phase::Idle && e == DeviceEvent::Acquire && s.slots() <= s.frame_index
            < u64::MAX && s.submitted >= s.wait_target() ==> s.respond(e) == Ok::<
            DeviceAction,
            PacerError,
        >(
            DeviceAction::WaitUntil {
                semaphore: s.timeline,
                value: (s.frame_index - s.slots() + 1) as u64,
                timeout: s.timeout,
            },
        ),
        s.respond(e) matches Ok(DeviceAction::WaitUntil { .. }) ==> s.phase == Phase::Idle
            && s.advance(e).phase == Phase::Waiting,
        s.respond(e) matches Ok(DeviceAction::ResetPool { .. }) ==> s.phase == Phase::Waiting
            && s.advance(e).phase == Phase::Resetting,
        s.phase == Phase::Waiting ==> !(s.respond(e) matches Ok(DeviceAction::WaitUntil { .. })),
{
}

/// One wait per recycle, over a whole history: starting from a pacer that is
/// not waiting, every wait requested has led to exactly one reset, was
/// abandoned on a timeout or failure, or is the one still outstanding.
pub proof fn lemma_one_wait_per_reset(s: PacerState, calls: Seq<Call>)
    requires
        s.wf(),
        s.phase != Phase::Waiting,
    ensures
        waits(s, calls) == resets(s, calls) + abandoned_waits(s, calls) + (if run(s, calls).phase
            == Phase::Waiting {
            1nat
        } else {
            0nat
        }),
    decreases calls.len(),
{
    if calls.len() > 0 {
        let front = calls.drop_last();
        lemma_one_wait_per_reset(s, front);
        lemma_in_flight_bounded(s, front);
    }
}

/// A timeout resets nothing: a waiting pacer told that the deadline passed,
/// or shown a timeline value short of the awaited one, answers with the
/// timeout error, returns to idle and changes nothing else, so the same frame
/// can be acquired again.
pub proof fn lemma_timeout_resets_nothing(s: PacerState, e: DeviceEvent)
    requires
        s.wf(),
        s.phase == Phase::Waiting,
        e == DeviceEvent::WaitTimedOut || (e matches DeviceEvent::TimelineReached(v) && v
            < s.wait_target()),
    ensures
        s.respond(e) == Err::<DeviceAction, PacerError>(PacerError::Timeout),
        s.advance(e) == (PacerState { phase: Phase::Idle, ..s }),
{
}

/// Submissions are in acquisition order: the k-th submit signals the value
/// k, the value that was handed out with the k-th buffer, from the slot that
/// the buffer came from.
pub proof fn lemma_submission_matches_acquire(s: PacerState, image_available: u64)
    requires
        s.wf(),
        s.phase == Phase::Idle,
        s.submitted < s.frame_index,
    ensures
        s.submission(image_available) matches Ok(sub) && sub.timeline_value == s.submitted + 1
            && sub.slot == s.submitted % s.slots() && sub.command_buffer
            == s.buffers[sub.slot as int] && sub.timeline == s.timeline,
        s.after_submit().submitted == s.submitted + 1,
{
    assert(0 <= (s.submitted as int) % (s.slots() as int) < s.slots());
}

} // verus!
