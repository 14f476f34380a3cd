//! Frame-synchronization and swapchain-lifecycle core of a real-time
//! rendering harness.
//!
//! The crate tracks which GPU-side resources are safe to reuse for a given
//! in-flight frame, manages swapchain acquisition, invalidation and
//! recreation, rebuilds the off-screen framebuffer attachments in lock-step
//! with the swapchain, and dispatches a uniform per-frame lifecycle across a
//! windowed desktop loop and a VR compositor loop.
//!
//! Device handles (fences, images, image views, framebuffers, semaphores)
//! are carried as plain `u64` identifiers; the graphics API calls that
//! realize each transition are issued by the embedding, which consults these
//! types for every decision and mirrors every piece of bookkeeping.

pub mod app_info;
pub mod compositor;
pub mod defaults;
pub mod error;
pub mod framebuffer_mgr;
pub mod mainloop;
pub mod memory;
pub mod starter_kit;
pub mod swapchain;
pub mod synchronization;
pub mod trivial;
