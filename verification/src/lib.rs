//! Core of a real-time GPU rendering engine: the resource-lifecycle and
//! frame-synchronization subsystem.
//!
//! The library models the hard parts of driving a low-level graphics API —
//! pairing every allocation with exactly one destruction, recycling
//! descriptor pools under allocation pressure, deferring destructive calls
//! until a fence proves the GPU is done, and pacing a bounded number of
//! frames in flight — as verified state machines over plain handle values.
//! The native API calls themselves (all of which are `unsafe` foreign calls
//! against a live device) are issued by a thin unverified driver that
//! executes the requests these state machines emit and feeds the outcomes
//! back in.

pub mod deletion_queue;
pub mod descriptors;
pub mod device;
pub mod draw;
pub mod error;
pub mod frame;
pub mod handles;
pub mod image_util;
pub mod material;
pub mod memory;
pub mod pipeline;
pub mod push_constants;
pub mod queue;
pub mod renderer;
pub mod swapchain;
