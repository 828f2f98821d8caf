//! Presentation and resource-lifecycle core of a small real-time renderer:
//! colour-format and adapter negotiation, GPU buffer bookkeeping, the
//! swapchain / framebuffer state machine and the per-frame scheduler.
use vstd::prelude::*;

pub mod buffer;
pub mod config;
pub mod context;
pub mod format;
pub mod input;
pub mod scheduler;
pub mod shader;
pub mod swapchain;

verus! {

} // verus!
