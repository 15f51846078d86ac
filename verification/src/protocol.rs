use vstd::prelude::*;
use crate::error::PacerError;
use crate::ring::FrameRing;

verus! {

/// The largest frame index; the timeline value of a frame is its index plus
/// one and must fit in 64 bits.
pub const LAST_FRAME: u64 = 0xFFFF_FFFF_FFFF_FFFF;

/// Where the pacer stands in the hand-over of one recording buffer.
#[derive(Clone, Copy, Debug, PartialEq, Eq, Structural)]
pub enum Phase {
    /// No device call is outstanding.
    Idle,
    /// The caller is waiting on the timeline.
    Waiting,
    /// The caller is resetting the slot's command pool.
    Resetting,
    /// The caller is beginning the slot's command buffer.
    Beginning,
}

/// What the caller reports to the pacer.
#[derive(Clone, Copy, Debug, PartialEq, Eq, Structural)]
pub enum DeviceEvent {
    /// A recording buffer for the next frame is wanted.
    Acquire,
    /// The wait returned; the field is the timeline value known to be reached.
    TimelineReached(u64),
    /// The wait's deadline passed first.
    WaitTimedOut,
    /// The command pool was reset.
    PoolReset,
    /// The command buffer is open for recording.
    RecordingBegun,
    /// The requested device call failed with this raw result code.
    Failed(i32),
}

/// What the pacer asks of the caller.
#[derive(Clone, Copy, Debug, PartialEq, Eq, Structural)]
pub enum DeviceAction {
    /// Block until `semaphore` has reached `value`, for `timeout` nanoseconds
    /// at most.
    WaitUntil { semaphore: u64, value: u64, timeout: u64 },
    /// Reset the command pool of `slot`.
    ResetPool { slot: usize, pool: u64 },
    /// Begin the command buffer of `slot`.
    BeginRecording { slot: usize, buffer: u64 },
    /// Record the frame into `buffer` and submit it signalling `target` on
    /// the timeline.
    Record { slot: usize, buffer: u64, target: u64 },
}

/// One queue submission: wait on the binary semaphore `image_available`,
/// execute `command_buffer`, signal `timeline` with `timeline_value` and the
/// binary render-complete semaphore of `slot`.
#[derive(Clone, Copy, Debug, PartialEq, Eq, Structural)]
pub struct Submission {
    pub slot: usize,
    pub command_buffer: u64,
    pub image_available: u64,
    pub timeline: u64,
    pub timeline_value: u64,
}

/// The pacer as a mathematical value.
pub struct PacerState {
    /// Command pools, by slot.
    pub pools: Seq<u64>,
    /// Command buffers, by slot.
    pub buffers: Seq<u64>,
    /// The submission queue.
    pub queue: u64,
    /// The timeline semaphore.
    pub timeline: u64,
    /// The deadline handed to every wait, in nanoseconds.
    pub timeout: u64,
    /// Frames handed out so far; also the index of the next frame.
    pub frame_index: nat,
    /// Frames submitted so far, oldest first.
    pub submitted: nat,
    /// The highest timeline value that the device was seen to have reached.
    pub reached: nat,
    pub phase: Phase,
}

impl PacerState {
    /// The size of the ring.
    pub open spec fn slots(self) -> nat {
        self.pools.len()
    }

    /// The slot of the next frame.
    pub open spec fn slot(self) -> int {
        FrameRing::slot_of(self.slots(), self.frame_index)
    }

    /// The timeline value that the frame which last used the next frame's
    /// slot signals when it completes. Meaningful once the ring has been
    /// filled.
    pub open spec fn wait_target(self) -> int {
        self.frame_index - self.slots() + 1
    }

    /// The timeline value that the next frame signals.
    pub open spec fn next_target(self) -> nat {
        self.frame_index + 1
    }

    /// Frames handed out and not yet seen completed on the timeline.
    pub open spec fn in_flight(self) -> nat {
        if self.frame_index >= self.reached {
            (self.frame_index - self.reached) as nat
        } else {
            0
        }
    }

    /// The invariant of the pacer. Its fourth line bounds the frames in
    /// flight by the ring size; the last three say that a reset or a begin of
    /// a recycled slot is requested only once the timeline has reached the
    /// value of the frame that used the slot before.
    pub open spec fn wf(self) -> bool {
        &&& self.slots() >= 1
        &&& self.slots() <= usize::MAX
        &&& self.buffers.len() == self.pools.len()
        &&& self.frame_index <= self.reached + self.slots()
        &&& self.submitted <= self.frame_index
        &&& self.frame_index <= LAST_FRAME
        &&& self.reached <= u64::MAX
        &&& (self.phase != Phase::Idle ==> self.frame_index < LAST_FRAME)
        &&& (self.phase == Phase::Waiting ==> self.frame_index >= self.slots())
        &&& (self.phase == Phase::Resetting ==> self.frame_index >= self.slots() && self.reached
            >= self.wait_target())
        &&& (self.phase == Phase::Beginning ==> self.frame_index < self.slots() || self.reached
            >= self.wait_target())
    }

    /// The state of a pacer that has handed out nothing yet.
    pub open spec fn initial(
        pools: Seq<u64>,
        buffers: Seq<u64>,
        queue: u64,
        timeline: u64,
        timeout: u64,
    ) -> PacerState {
        PacerState {
            pools,
            buffers,
            queue,
            timeline,
            timeout,
            frame_index: 0,
            submitted: 0,
            reached: 0,
            phase: Phase::Idle,
        }
    }

    /// The request to begin the next frame's command buffer.
    pub open spec fn begin_action(self) -> DeviceAction {
        DeviceAction::BeginRecording { slot: self.slot() as usize, buffer: self.buffers[self.slot()] }
    }

    /// The request to wait for the frame that last used the next frame's slot.
    pub open spec fn wait_action(self) -> DeviceAction {
        DeviceAction::WaitUntil {
            semaphore: self.timeline,
            value: self.wait_target() as u64,
            timeout: self.timeout,
        }
    }

    /// The request to reset the next frame's command pool.
    pub open spec fn reset_action(self) -> DeviceAction {
        DeviceAction::ResetPool { slot: self.slot() as usize, pool: self.pools[self.slot()] }
    }

    /// The hand-over of the next frame's command buffer.
    pub open spec fn record_action(self) -> DeviceAction {
        DeviceAction::Record {
            slot: self.slot() as usize,
            buffer: self.buffers[self.slot()],
            target: self.next_target() as u64,
        }
    }

    /// The pacer's answer to an event.
    ///
    /// Idle, on `Acquire`: while the ring is being filled, begin at once;
    /// afterwards wait for the frame one ring earlier, which must have been
    /// submitted. Once the frame index has reached `LAST_FRAME` there is no
    /// further timeline value to signal and the acquire is refused. Waiting: a reached value at or past the awaited one asks for
    /// the reset, anything less is a timeout. Resetting, then Beginning: go
    /// on, and hand the buffer out with the value to signal. A failure report
    /// ends the hand-over with the device's code. Every other event answers no
    /// request and is a protocol violation.
    pub open spec fn respond(self, e: DeviceEvent) -> Result<DeviceAction, PacerError> {
        match (self.phase, e) {
            (Phase::Idle, DeviceEvent::Acquire) => {
                if self.frame_index >= LAST_FRAME {
                    Err(PacerError::InvalidState)
                } else if self.frame_index < self.slots() {
                    Ok(self.begin_action())
                } else if self.submitted < self.wait_target() {
                    Err(PacerError::InvalidState)
                } else {
                    Ok(self.wait_action())
                }
            },
            (Phase::Waiting, DeviceEvent::TimelineReached(v)) => {
                if v >= self.wait_target() {
                    Ok(self.reset_action())
                } else {
                    Err(PacerError::Timeout)
                }
            },
            (Phase::Waiting, DeviceEvent::WaitTimedOut) => Err(PacerError::Timeout),
            (Phase::Resetting, DeviceEvent::PoolReset) => Ok(self.begin_action()),
            (Phase::Beginning, DeviceEvent::RecordingBegun) => Ok(self.record_action()),
            (Phase::Waiting, DeviceEvent::Failed(code)) => Err(PacerError::Device(code)),
            (Phase::Resetting, DeviceEvent::Failed(code)) => Err(PacerError::Device(code)),
            (Phase::Beginning, DeviceEvent::Failed(code)) => Err(PacerError::Device(code)),
            _ => Err(PacerError::InvalidState),
        }
    }

    /// The state after an event. Only the phase, the reached value and the
    /// frame index ever change: the phase follows the request made, a timeout
    /// or a failure returns to idle, a protocol violation changes nothing,
    /// and the frame index advances by one exactly when a buffer is handed
    /// out.
    pub open spec fn advance(self, e: DeviceEvent) -> PacerState {
        match self.respond(e) {
            Ok(DeviceAction::WaitUntil { .. }) => PacerState { phase: Phase::Waiting, ..self },
            Ok(DeviceAction::ResetPool { .. }) => PacerState {
                phase: Phase::Resetting,
                reached: match e {
                    DeviceEvent::TimelineReached(v) if v > self.reached => v as nat,
                    _ => self.reached,
                },
                ..self
            },
            Ok(DeviceAction::BeginRecording { .. }) => PacerState {
                phase: Phase::Beginning,
                ..self
            },
            Ok(DeviceAction::Record { .. }) => PacerState {
                phase: Phase::Idle,
                frame_index: self.frame_index + 1,
                ..self
            },
            Err(PacerError::InvalidState) => self,
            Err(_) => PacerState { phase: Phase::Idle, ..self },
        }
    }

    /// The submission of the oldest frame that was handed out and not yet
    /// submitted; a protocol violation if there is none or a hand-over is
    /// under way.
    pub open spec fn submission(self, image_available: u64) -> Result<Submission, PacerError> {
        if self.phase == Phase::Idle && self.submitted < self.frame_index {
            let slot = FrameRing::slot_of(self.slots(), self.submitted);
            Ok(
                Submission {
                    slot: slot as usize,
                    command_buffer: self.buffers[slot],
                    image_available,
                    timeline: self.timeline,
                    timeline_value: (self.submitted + 1) as u64,
                },
            )
        } else {
            Err(PacerError::InvalidState)
        }
    }

    /// The state after a call of submit.
    pub open spec fn after_submit(self) -> PacerState {
        if self.phase == Phase::Idle && self.submitted < self.frame_index {
            PacerState { submitted: self.submitted + 1, ..self }
        } else {
            self
        }
    }
}

impl DeviceEvent {
    /// The event that a finished wait stands for, by the raw result code of
    /// the wait: success (0) means that `value` was reached, timeout (2) that
    /// the deadline passed, any other code is a failure.
    pub open spec fn wait_outcome(code: i32, value: u64) -> DeviceEvent {
        if code == 0 {
            DeviceEvent::TimelineReached(value)
        } else if code == 2 {
            DeviceEvent::WaitTimedOut
        } else {
            DeviceEvent::Failed(code)
        }
    }

    /// Classifies the result of a wait for `value`.
    pub fn from_wait(code: i32, value: u64) -> (e: DeviceEvent)
        ensures
            e == Self::wait_outcome(code, value),
    {
        if code == 0 {
            DeviceEvent::TimelineReached(value)
        } else if code == 2 {
            DeviceEvent::WaitTimedOut
        } else {
            DeviceEvent::Failed(code)
        }
    }

    /// The event that a finished reset or begin stands for: `done` on success
    /// (0), a failure with the code otherwise.
    pub open spec fn call_outcome(code: i32, done: DeviceEvent) -> DeviceEvent {
        if code == 0 {
            done
        } else {
            DeviceEvent::Failed(code)
        }
    }

    /// Classifies the result of a reset or a begin.
    pub fn from_call(code: i32, done: DeviceEvent) -> (e: DeviceEvent)
        ensures
            e == Self::call_outcome(code, done),
    {
        if code == 0 {
            done
        } else {
            DeviceEvent::Failed(code)
        }
    }
}

} // verus!
