//! Error taxonomy of the frame lifecycle.

use vstd::prelude::*;

verus! {

/// A fatal or usage error raised by the frame lifecycle.
///
/// Transient surface invalidation is not an error: it is healed by one
/// rebuild-and-retry inside the swapchain controller, and only a second
/// consecutive failure surfaces as `SurfaceLost`.
#[derive(Clone, Copy, Debug, PartialEq, Eq, Structural)]
pub enum FrameError {
    /// `frame` or `extent` was called before the first successful `resize`:
    /// a usage-ordering violation, reported deterministically.
    Uninitialized,
    /// A swapchain image index at or beyond the current image count was
    /// handed in: a programming error, not a state to recover from.
    InvalidImageIndex,
    /// The surface stayed out of date after a rebuild and one retry.
    SurfaceLost,
    /// A fence wait exceeded the platform timeout; treated as device loss.
    /// Never retried: the embedding maps a device-side timeout to this.
    DeviceLost,
    /// Device memory or handle space is exhausted; propagated unchanged.
    OutOfMemory,
}

} // verus!
