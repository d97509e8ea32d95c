//! Frame lifecycle engine for a swapchain-backed renderer: which back buffer
//! to draw into, the command sequence recorded for it, the resource-state
//! transitions that sequence makes, and the fence that keeps the CPU from
//! reusing memory the GPU still reads.
//!
//! The library decides; the caller performs. Each method hands back what the
//! caller must do next on the device (commands to record, a fence value to
//! signal or wait on) and takes back what the device reported.

pub mod error;
pub mod resource;
pub mod descriptor;
pub mod swapchain;
pub mod fence;
pub mod adapter;
pub mod window;
