use vstd::prelude::*;
use crate::history::{step, Call};
use crate::protocol::{DeviceAction, DeviceEvent, PacerState};

verus! {

/// The pacer together with the device's side of the timeline: `counter` is
/// the value that the timeline semaphore really holds, which is the number of
/// submitted frames that the device has finished.
pub struct Session {
    pub pacer: PacerState,
    pub counter: nat,
}

/// What can happen in a session: the caller calls the pacer, or the device
/// finishes the oldest submitted frame and signals its value.
pub enum Move {
    Caller(Call),
    Retire,
}

impl Session {
    /// A session at start-up: nothing handed out, the counter at zero.
    pub open spec fn start(pacer: PacerState) -> Session {
        Session { pacer, counter: 0 }
    }

    /// The pacer is well formed, holds nothing as reached that the counter
    /// has not reached, and the device has finished no frame that was not
    /// submitted.
    pub open spec fn wf(self) -> bool {
        &&& self.pacer.wf()
        &&& self.pacer.reached <= self.counter
        &&& self.counter <= self.pacer.submitted
    }

    /// The reports that a device may make: a reached value is reported only
    /// once the counter holds it.
    pub open spec fn permits(self, m: Move) -> bool {
        match m {
            Move::Caller(Call::Drive(DeviceEvent::TimelineReached(v))) => v <= self.counter,
            _ => true,
        }
    }

    /// The session after a move. The device finishes a frame only if one is
    /// submitted and unfinished.
    pub open spec fn after(self, m: Move) -> Session {
        match m {
            Move::Caller(c) => Session { pacer: step(self.pacer, c), ..self },
            Move::Retire => if self.counter < self.pacer.submitted {
                Session { counter: self.counter + 1, ..self }
            } else {
                self
            },
        }
    }

    /// Frames handed out whose value the timeline has not been signalled
    /// with yet.
    pub open spec fn unsignalled(self) -> nat {
        if self.pacer.frame_index >= self.counter {
            (self.pacer.frame_index - self.counter) as nat
        } else {
            0
        }
    }

    /// Whether every move of a sequence is one that the device may make in
    /// the session that the moves before it lead to.
    pub open spec fn permits_all(self, moves: Seq<Move>) -> bool
        decreases moves.len(),
    {
        moves.len() > 0 ==> self.permits_all(moves.drop_last()) && self.play(
            moves.drop_last(),
        ).permits(moves.last())
    }

    /// The session after a sequence of moves, first move first.
    pub open spec fn play(self, moves: Seq<Move>) -> Session
        decreases moves.len(),
    {
        if moves.len() == 0 {
            self
        } else {
            self.play(moves.drop_last()).after(moves.last())
        }
    }
}

/// A pacer that has handed out nothing, with the counter at zero, is a
/// well-formed session.
pub proof fn lemma_start_is_well_formed(pacer: PacerState)
    requires
        pacer == PacerState::initial(
            pacer.pools,
            pacer.buffers,
            pacer.queue,
            pacer.timeline,
            pacer.timeout,
        ),
        1 <= pacer.pools.len() <= usize::MAX,
        pacer.buffers.len() == pacer.pools.len(),
    ensures
        pacer.wf(),
        Session::start(pacer).wf(),
        Session::start(pacer).unsignalled() == 0,
{
}

/// A permitted move keeps the session well formed and never turns the
/// counter back.
pub proof fn lemma_move_keeps_session(w: Session, m: Move)
    requires
        w.wf(),
        w.permits(m),
    ensures
        w.after(m).wf(),
        w.after(m).counter >= w.counter,
        w.after(m).pacer.slots() == w.pacer.slots(),
{
}

/// Bounded frames in flight, against the device's own counter: however the
/// caller's calls and the device's completions interleave, at most as many
/// frames as the ring has slots are handed out and not yet signalled on the
/// timeline.
pub proof fn lemma_unsignalled_bounded(w: Session, moves: Seq<Move>)
    requires
        w.wf(),
        w.permits_all(moves),
    ensures
        w.play(moves).wf(),
        w.play(moves).pacer.slots() == w.pacer.slots(),
        w.play(moves).unsignalled() <= w.pacer.slots(),
        w.play(moves).counter >= w.counter,
    decreases moves.len(),
{
    if moves.len() > 0 {
        lemma_unsignalled_bounded(w, moves.drop_last());
        lemma_move_keeps_session(w.play(moves.drop_last()), moves.last());
    }
}

/// No premature reset, against the device's own counter: when the pacer
/// answers a permitted report with the request to reset a pool, the counter
/// has reached the value signalled by the frame that last used the slot, so
/// the device has finished with the slot's command buffer.
pub proof fn lemma_reset_after_completion(w: Session, e: DeviceEvent)
    requires
        w.wf(),
        w.permits(Move::Caller(Call::Drive(e))),
        w.pacer.respond(e) matches Ok(DeviceAction::ResetPool { .. }),
    ensures
        w.pacer.frame_index >= w.pacer.slots(),
        w.counter >= w.pacer.frame_index - w.pacer.slots() + 1,
{
}

/// The same over a whole session: whenever, after any permitted sequence of
/// moves from a well-formed session, a reset is requested, the frame that
/// last used the slot has completed.
pub proof fn lemma_never_reset_in_flight(w: Session, moves: Seq<Move>, e: DeviceEvent)
    requires
        w.wf(),
        w.permits_all(moves),
        w.play(moves).permits(Move::Caller(Call::Drive(e))),
        w.play(moves).pacer.respond(e) matches Ok(DeviceAction::ResetPool { .. }),
    ensures
        w.play(moves).counter >= w.play(moves).pacer.frame_index - w.pacer.slots() + 1,
{
    lemma_unsignalled_bounded(w, moves);
    lemma_reset_after_completion(w.play(moves), e);
}

} // verus!
