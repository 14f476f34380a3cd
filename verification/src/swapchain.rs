//! Desktop swapchain controller: owns the presentable swap-image set and
//! the acquire / invalidate / rebuild / present cycle.
//!
//! The platform's answers to acquire and present calls enter as
//! [`AcquireOutcome`] and [`PresentOutcome`] events; the controller decides
//! what happens next and keeps the swap-image bookkeeping. An out-of-date
//! surface is healed by exactly one rebuild-and-retry; a second consecutive
//! failure is surfaced as fatal rather than retried forever. An out-of-date
//! signal at present time is advisory only: the next acquire self-heals.

use vstd::prelude::*;

use crate::error::FrameError;
use crate::mainloop::{Extent2D, ResizeInfo};

verus! {

/// The platform's answer to one acquire request.
#[derive(Clone, Copy, Debug, PartialEq, Eq, Structural)]
pub enum AcquireOutcome {
    /// The next presentable image, by index into the swap-image set.
    Acquired(u32),
    /// The surface is out of date; the swapchain must be rebuilt.
    OutOfDate,
}

/// The platform's answer to one present request.
#[derive(Clone, Copy, Debug, PartialEq, Eq, Structural)]
pub enum PresentOutcome {
    /// The image was queued for presentation.
    Success,
    /// The surface is out of date; advisory, the next acquire self-heals.
    OutOfDate,
}

/// What the frame loop must do after feeding an acquire outcome in.
#[derive(Clone, Debug, PartialEq, Eq)]
pub enum FrameStep {
    /// Render into `image_index`; if a rebuild happened since the last
    /// report, its new image set rides along exactly once.
    Proceed { image_index: u32, resize: Option<ResizeInfo> },
    /// Query the surface and hand the fresh image set to
    /// [`Swapchain::rebuild_swapchain`], then acquire once more.
    Rebuild,
}

/// Where the controller stands in the acquire cycle.
#[derive(Clone, Copy, Debug, PartialEq, Eq, Structural)]
pub enum AcquireState {
    /// The swap-image set is current as far as the controller knows.
    Ready,
    /// An acquire reported out of date; the swapchain must be rebuilt
    /// before the next acquire.
    AwaitingRebuild,
    /// The swapchain was rebuilt; one retry of the acquire is allowed.
    RetryAcquire,
}

/// The presentable swap-image set and the state of the acquire cycle.
pub struct Swapchain {
    images: Vec<u64>,
    extent: Extent2D,
    state: AcquireState,
    pending_resize: bool,
}

impl Swapchain {
    /// The current swap images.
    pub closed spec fn images_spec(&self) -> Seq<u64> {
        self.images@
    }

    /// The current surface extent.
    pub closed spec fn extent_spec(&self) -> Extent2D {
        self.extent
    }

    /// Where the controller stands in the acquire cycle.
    pub closed spec fn state_spec(&self) -> AcquireState {
        self.state
    }

    /// Whether a rebuilt image set has not yet been reported to the caller.
    pub closed spec fn pending_resize_spec(&self) -> bool {
        self.pending_resize
    }

    /// A rebuilt image set is pending exactly while the one retry is.
    pub open spec fn wf(&self) -> bool {
        self.pending_resize_spec() == (self.state_spec() is RetryAcquire)
    }

    /// Wrap the swap-image set the platform created for the surface.
    pub fn new(images: Vec<u64>, extent: Extent2D) -> (r: Self)
        ensures
            r.wf(),
            r.images_spec() == images@,
            r.extent_spec() == extent,
            r.state_spec() is Ready,
    {
        Swapchain { images, extent, state: AcquireState::Ready, pending_resize: false }
    }

    /// Number of images in the current set.
    pub fn image_count(&self) -> (r: usize)
        ensures
            r == self.images_spec().len(),
    {
        self.images.len()
    }

    /// The current surface extent.
    pub fn current_extent(&self) -> (r: Extent2D)
        ensures
            r == self.extent_spec(),
    {
        self.extent
    }

    /// Whether the next step must be a swapchain rebuild, not an acquire.
    pub fn needs_rebuild(&self) -> (r: bool)
        ensures
            r == (self.state_spec() is AwaitingRebuild),
    {
        match self.state {
            AcquireState::AwaitingRebuild => true,
            _ => false,
        }
    }

    /// Drive the acquire cycle with the platform's answer to one acquire.
    ///
    /// From `Ready`, a successful acquire proceeds with no resize; an
    /// out-of-date answer demands a rebuild. After a rebuild, a successful
    /// acquire proceeds and reports the new image set exactly once; a
    /// second out-of-date answer is fatal — the retry is not repeated
    /// against a broken surface.
    pub fn frame(&mut self, outcome: AcquireOutcome) -> (r: Result<FrameStep, FrameError>)
        requires
            old(self).wf(),
            !(old(self).state_spec() is AwaitingRebuild),
            outcome matches AcquireOutcome::Acquired(i) ==> (i as int) < old(
                self,
            ).images_spec().len(),
        ensures
            final(self).wf(),
            final(self).images_spec() == old(self).images_spec(),
            final(self).extent_spec() == old(self).extent_spec(),
            match outcome {
                AcquireOutcome::Acquired(i) => {
                    &&& final(self).state_spec() is Ready
                    &&& r matches Ok(FrameStep::Proceed { image_index, resize })
                        && image_index == i
                        && (resize is Some <==> old(self).state_spec() is RetryAcquire)
                        && (resize matches Some(info) ==> info.images@ == old(self).images_spec()
                        && info.extent == old(self).extent_spec())
                },
                AcquireOutcome::OutOfDate => {
                    if old(self).state_spec() is Ready {
                        &&& r == Ok::<FrameStep, FrameError>(FrameStep::Rebuild)
                        &&& final(self).state_spec() is AwaitingRebuild
                    } else {
                        &&& r == Err::<FrameStep, FrameError>(FrameError::SurfaceLost)
                        &&& final(self).state_spec() is Ready
                    }
                },
            },
    {
        match outcome {
            AcquireOutcome::Acquired(image_index) => {
                let resize: Option<ResizeInfo> = match self.state {
                    AcquireState::RetryAcquire => {
                        let images = copy_handles(&self.images);
                        Some(ResizeInfo { images, extent: self.extent })
                    },
                    _ => None,
                };
                self.state = AcquireState::Ready;
                self.pending_resize = false;
                Ok(FrameStep::Proceed { image_index, resize })
            },
            AcquireOutcome::OutOfDate => {
                match self.state {
                    AcquireState::Ready => {
                        self.state = AcquireState::AwaitingRebuild;
                        Ok(FrameStep::Rebuild)
                    },
                    _ => {
                        // Already retried once after a rebuild: escalate
                        // instead of looping against a broken surface.
                        self.state = AcquireState::Ready;
                        self.pending_resize = false;
                        Err(FrameError::SurfaceLost)
                    },
                }
            },
        }
    }

    /// Install the image set the platform rebuilt against current surface
    /// capabilities. The old set's dependent state is torn down by the
    /// embedding first. The new set is reported to the caller with the
    /// next successful acquire.
    pub fn rebuild_swapchain(&mut self, images: Vec<u64>, extent: Extent2D)
        requires
            old(self).wf(),
            old(self).state_spec() is AwaitingRebuild,
        ensures
            final(self).wf(),
            final(self).images_spec() == images@,
            final(self).extent_spec() == extent,
            final(self).state_spec() is RetryAcquire,
    {
        self.images = images;
        self.extent = extent;
        self.state = AcquireState::RetryAcquire;
        self.pending_resize = true;
    }

    /// Take the platform's answer to a present request. An out-of-date
    /// signal here is advisory and never escalated: the next acquire will
    /// report it and self-heal.
    pub fn queue_present(&mut self, outcome: PresentOutcome) -> (r: Result<(), FrameError>)
        requires
            old(self).wf(),
        ensures
            final(self).wf(),
            r is Ok,
            final(self).images_spec() == old(self).images_spec(),
            final(self).extent_spec() == old(self).extent_spec(),
            final(self).state_spec() == old(self).state_spec(),
    {
        let _ = outcome;
        Ok(())
    }
}

/// Copy a handle list.
pub(crate) fn copy_handles(v: &Vec<u64>) -> (r: Vec<u64>)
    ensures
        r@ == v@,
{
    let mut r: Vec<u64> = Vec::new();
    let mut i: usize = 0;
    while i < v.len()
        invariant
            i <= v@.len(),
            r@ == v@.subrange(0, i as int),
        decreases v@.len() - i,
    {
        r.push(v[i]);
        proof {
            assert(r@ =~= v@.subrange(0, i + 1));
        }
        i = i + 1;
    }
    proof {
        assert(r@ =~= v@);
    }
    r
}

} // verus!
