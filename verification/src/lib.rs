//! Frame-resource pacing for a renderer that keeps a bounded number of frames
//! in flight on one GPU queue.
//!
//! The crate decides; the caller performs. Every device operation (waiting on
//! the timeline semaphore, resetting a command pool, beginning a command
//! buffer, submitting) is an unsafe driver call that lives with the caller.
//! The pacer tells the caller which call to make next and is told how it went.

pub mod error;
pub mod layout;
pub mod ring;
pub mod protocol;
pub mod device;
pub mod history;
pub mod session;

pub use crate::device::Gpu;
pub use crate::error::PacerError;
pub use crate::layout::{DescriptorsDesc, GpuDescriptors, Layout, PushConstantRange};
pub use crate::protocol::{DeviceAction, DeviceEvent, PacerState, Phase, Submission};
pub use crate::ring::FrameRing;
