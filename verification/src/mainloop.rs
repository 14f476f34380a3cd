//! Platform-facing surface of the frame loop: which kind of session is
//! driving it, and the values the loop hands to the application each tick.

use vstd::prelude::*;

verus! {

/// A two-dimensional pixel extent of a surface or attachment.
#[derive(Clone, Copy, Debug, PartialEq, Eq, Structural)]
pub struct Extent2D {
    pub width: u32,
    pub height: u32,
}

/// Per-tick handle to the GPU's commands: which swapchain image the frame
/// renders into.
#[derive(Clone, Copy, Debug, PartialEq, Eq, Structural)]
pub struct Frame {
    /// Swapchain image selection
    pub swapchain_index: u32,
}

/// Which platform drives the loop. Chosen once at startup and fixed for the
/// process lifetime.
#[derive(Clone, Copy, Debug, PartialEq, Eq, Structural)]
pub enum Platform {
    /// A windowed desktop session presenting to an interactive surface.
    Winit,
    /// A VR session driven by a compositor runtime.
    OpenXr,
}

/// A new swap-image set and extent, reported by the surface or compositor.
/// The framebuffer set must be rebuilt from it before the next frame renders.
#[derive(Clone, Debug, PartialEq, Eq)]
pub struct ResizeInfo {
    /// The platform-owned swap images, as opaque handles.
    pub images: Vec<u64>,
    /// The new surface extent.
    pub extent: Extent2D,
}

impl Platform {
    /// Whether the session renders to a stereo (VR) surface, which doubles
    /// the array-layer count of framebuffer attachments.
    pub fn is_vr(&self) -> (r: bool)
        ensures
            r == (*self is OpenXr),
    {
        match self {
            Platform::OpenXr => true,
            Platform::Winit => false,
        }
    }

    /// Whether the session presents to an interactive surface and therefore
    /// needs per-slot swapchain semaphores.
    pub fn is_interactive(&self) -> (r: bool)
        ensures
            r == (*self is Winit),
    {
        match self {
            Platform::Winit => true,
            Platform::OpenXr => false,
        }
    }
}

} // verus!
