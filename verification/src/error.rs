use vstd::prelude::*;

verus! {

/// Why the pacer refused to go on.
#[derive(Clone, Copy, Debug, PartialEq, Eq, Structural)]
pub enum PacerError {
    /// The ring could not be built: no slot was asked for, or a command pool
    /// or command buffer is missing for some slot.
    ResourceCreation,
    /// The wait on the timeline ended before the awaited value was reached.
    Timeout,
    /// The caller broke the protocol: an event that answers no outstanding
    /// request, a submit with no acquired frame, an acquire of a slot whose
    /// last frame was never submitted.
    InvalidState,
    /// The device reported a failure; the field is its raw result code.
    Device(i32),
}

impl PacerError {
    /// A short description for logs and error reports.
    pub fn describe(&self) -> (r: &'static str)
        ensures
            r@ == describe_text(*self),
    {
        match self {
            PacerError::ResourceCreation => "frame resources could not be created",
            PacerError::Timeout => "timed out waiting for the GPU timeline",
            PacerError::InvalidState => "frame pacing protocol violated",
            PacerError::Device(_) => "the device reported an error",
        }
    }
}

/// The text that [`PacerError::describe`] returns.
pub open spec fn describe_text(e: PacerError) -> Seq<char> {
    match e {
        PacerError::ResourceCreation => "frame resources could not be created"@,
        PacerError::Timeout => "timed out waiting for the GPU timeline"@,
        PacerError::InvalidState => "frame pacing protocol violated"@,
        PacerError::Device(_) => "the device reported an error"@,
    }
}

} // verus!
