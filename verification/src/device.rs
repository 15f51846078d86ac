use vstd::prelude::*;
use crate::error::PacerError;
use crate::layout::{GpuDescriptors, Layout};
use crate::protocol::{DeviceAction, DeviceEvent, PacerState, Phase, Submission, LAST_FRAME};
use crate::ring::FrameRing;

verus! {

/// The wait deadline of a new pacer: never give up.
pub const NO_DEADLINE: u64 = 0xFFFF_FFFF_FFFF_FFFF;

/// The device context as far as frame pacing goes: the queue, the timeline
/// semaphore, the ring of recording slots and the count of frames handed out.
pub struct Gpu {
    ring: FrameRing,
    queue: u64,
    timeline: u64,
    timeout: u64,
    frame_id: u64,
    submitted: u64,
    reached: u64,
    phase: Phase,
}

impl View for Gpu {
    type V = PacerState;

    closed spec fn view(&self) -> PacerState {
        PacerState {
            pools: self.ring.pools(),
            buffers: self.ring.buffers(),
            queue: self.queue,
            timeline: self.timeline,
            timeout: self.timeout,
            frame_index: self.frame_id as nat,
            submitted: self.submitted as nat,
            reached: self.reached as nat,
            phase: self.phase,
        }
    }
}

impl Gpu {
    /// The invariant that every constructor establishes and every method
    /// keeps.
    pub open spec fn wf(&self) -> bool {
        self@.wf()
    }

    /// Assembles the pacer for `frame_buffering` frames in flight from the
    /// device objects created for it: one command pool and one command buffer
    /// per slot, the queue and the timeline semaphore (created at value 0).
    /// Fails with `ResourceCreation` if `frame_buffering` is zero or the pools
    /// or buffers are not one per slot.
    pub fn new(
        frame_buffering: usize,
        queue: u64,
        cmd_pools: Vec<u64>,
        cmd_buffers: Vec<u64>,
        timeline: u64,
    ) -> (r: Result<Gpu, PacerError>)
        ensures
            r is Ok <==> frame_buffering >= 1 && cmd_pools@.len() == frame_buffering
                && cmd_buffers@.len() == frame_buffering,
            r matches Ok(gpu) ==> gpu.wf() && gpu@ == PacerState::initial(
                cmd_pools@,
                cmd_buffers@,
                queue,
                timeline,
                NO_DEADLINE,
            ),
            r matches Err(e) ==> e == PacerError::ResourceCreation,
    {
        match FrameRing::new(frame_buffering, cmd_pools, cmd_buffers) {
            Ok(ring) => Ok(
                Gpu {
                    ring,
                    queue,
                    timeline,
                    timeout: NO_DEADLINE,
                    frame_id: 0,
                    submitted: 0,
                    reached: 0,
                    phase: Phase::Idle,
                },
            ),
            Err(e) => Err(e),
        }
    }

    /// Drives the hand-over of the next recording buffer by one step: takes
    /// what the caller reports and returns what the caller must do next. The
    /// hand-over starts with `Acquire` and ends with `Record`, which carries
    /// the buffer and the timeline value to signal on submission, or with an
    /// error.
    pub fn acquire_cmd_buffer(&mut self, event: DeviceEvent) -> (r: Result<
        DeviceAction,
        PacerError,
    >)
        requires
            old(self).wf(),
        ensures
            final(self).wf(),
            r == old(self)@.respond(event),
            final(self)@ == old(self)@.advance(event),
    {
        let slot: usize = self.ring.slot_for(self.frame_id);
        let slots: u64 = self.ring.slot_count() as u64;
        match (self.phase, event) {
            (Phase::Idle, DeviceEvent::Acquire) => {
                if self.frame_id >= LAST_FRAME {
                    Err(PacerError::InvalidState)
                } else if self.frame_id < slots {
                    self.phase = Phase::Beginning;
                    Ok(
                        DeviceAction::BeginRecording {
                            slot,
                            buffer: self.ring.recording_buffer(slot),
                        },
                    )
                } else if self.submitted < self.frame_id - slots + 1 {
                    Err(PacerError::InvalidState)
                } else {
                    self.phase = Phase::Waiting;
                    Ok(
                        DeviceAction::WaitUntil {
                            semaphore: self.timeline,
                            value: self.frame_id - slots + 1,
                            timeout: self.timeout,
                        },
                    )
                }
            },
            (Phase::Waiting, DeviceEvent::TimelineReached(v)) => {
                if v >= self.frame_id - slots + 1 {
                    if v > self.reached {
                        self.reached = v;
                    }
                    self.phase = Phase::Resetting;
                    Ok(DeviceAction::ResetPool { slot, pool: self.ring.pool(slot) })
                } else {
                    self.phase = Phase::Idle;
                    Err(PacerError::Timeout)
                }
            },
            (Phase::Waiting, DeviceEvent::WaitTimedOut) => {
                self.phase = Phase::Idle;
                Err(PacerError::Timeout)
            },
            (Phase::Resetting, DeviceEvent::PoolReset) => {
                self.phase = Phase::Beginning;
                Ok(DeviceAction::BeginRecording { slot, buffer: self.ring.recording_buffer(slot) })
            },
            (Phase::Beginning, DeviceEvent::RecordingBegun) => {
                let target: u64 = self.frame_id + 1;
                self.frame_id = target;
                self.phase = Phase::Idle;
                Ok(DeviceAction::Record { slot, buffer: self.ring.recording_buffer(slot), target })
            },
            (Phase::Waiting, DeviceEvent::Failed(code)) => {
                self.phase = Phase::Idle;
                Err(PacerError::Device(code))
            },
            (Phase::Resetting, DeviceEvent::Failed(code)) => {
                self.phase = Phase::Idle;
                Err(PacerError::Device(code))
            },
            (Phase::Beginning, DeviceEvent::Failed(code)) => {
                self.phase = Phase::Idle;
                Err(PacerError::Device(code))
            },
            _ => Err(PacerError::InvalidState),
        }
    }

    /// Builds the submission of the oldest frame that was handed out and is
    /// not yet submitted, and counts it as submitted. Frames are submitted in
    /// the order in which they were acquired, each signalling the timeline
    /// value that came with its buffer.
    pub fn submit(&mut self, image_available: u64) -> (r: Result<Submission, PacerError>)
        requires
            old(self).wf(),
        ensures
            final(self).wf(),
            r == old(self)@.submission(image_available),
            final(self)@ == old(self)@.after_submit(),
    {
        let idle: bool = match self.phase {
            Phase::Idle => true,
            _ => false,
        };
        if idle && self.submitted < self.frame_id {
            let slot: usize = self.ring.slot_for(self.submitted);
            let value: u64 = self.submitted + 1;
            self.submitted = value;
            Ok(
                Submission {
                    slot,
                    command_buffer: self.ring.recording_buffer(slot),
                    image_available,
                    timeline: self.timeline,
                    timeline_value: value,
                },
            )
        } else {
            Err(PacerError::InvalidState)
        }
    }

    /// Wraps a freshly created pipeline layout; it binds no samplers.
    pub fn create_layout(&self, pipeline_layout: u64) -> (r: Layout)
        ensures
            r == (Layout { pipeline_layout, samplers: GpuDescriptors { layout: 0, set: 0 } }),
    {
        Layout { pipeline_layout, samplers: GpuDescriptors::null() }
    }

    /// Sets the deadline, in nanoseconds, that every later wait is given.
    pub fn set_timeout(&mut self, timeout: u64)
        requires
            old(self).wf(),
        ensures
            final(self).wf(),
            final(self)@ == (PacerState { timeout, ..old(self)@ }),
    {
        self.timeout = timeout;
    }

    /// The number of slots in the ring, which is the number of frames that
    /// may be in flight.
    pub fn slot_count(&self) -> (n: usize)
        requires
            self.wf(),
        ensures
            n == self@.slots(),
            n >= 1,
    {
        self.ring.slot_count()
    }

    /// The index of the next frame: the number of buffers handed out.
    pub fn frame_index(&self) -> (i: u64)
        ensures
            i == self@.frame_index,
    {
        self.frame_id
    }

    /// The number of frames handed out and not yet seen completed on the
    /// timeline; never more than the ring has slots.
    pub fn in_flight(&self) -> (n: u64)
        requires
            self.wf(),
        ensures
            n == self@.in_flight(),
            n <= self@.slots(),
    {
        if self.frame_id >= self.reached {
            self.frame_id - self.reached
        } else {
            0
        }
    }

    /// The number of frames submitted.
    pub fn submitted(&self) -> (i: u64)
        ensures
            i == self@.submitted,
    {
        self.submitted
    }

    /// The highest timeline value seen reached.
    pub fn reached(&self) -> (v: u64)
        ensures
            v == self@.reached,
    {
        self.reached
    }

    /// Where the current hand-over stands.
    pub fn phase(&self) -> (p: Phase)
        ensures
            p == self@.phase,
    {
        self.phase
    }

    /// The timeline semaphore.
    pub fn timeline(&self) -> (h: u64)
        ensures
            h == self@.timeline,
    {
        self.timeline
    }

    /// The submission queue.
    pub fn queue(&self) -> (h: u64)
        ensures
            h == self@.queue,
    {
        self.queue
    }

    /// The deadline of a wait, in nanoseconds.
    pub fn timeout(&self) -> (t: u64)
        ensures
            t == self@.timeout,
    {
        self.timeout
    }

    /// The command pool of a slot.
    pub fn cmd_pool(&self, slot: usize) -> (h: u64)
        requires
            self.wf(),
            slot < self@.slots(),
        ensures
            h == self@.pools[slot as int],
    {
        self.ring.pool(slot)
    }

    /// The command buffer of a slot.
    pub fn cmd_buffer(&self, slot: usize) -> (h: u64)
        requires
            self.wf(),
            slot < self@.slots(),
        ensures
            h == self@.buffers[slot as int],
    {
        self.ring.recording_buffer(slot)
    }
}

} // verus!
