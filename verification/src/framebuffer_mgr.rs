//! Framebuffer manager: owns the depth (and optional multisampled color)
//! attachment and one framebuffer per swapchain image, rebuilt in lock-step
//! with the swapchain.
//!
//! Attachment and framebuffer objects are modeled as handles drawn from a
//! monotone counter, with allocation and release accounting: at any time
//! exactly the current attachment set is live, so leaks and double
//! allocations are ruled out by construction. The embedding creates and
//! destroys the device objects exactly where `resize` and `destroy` account
//! for them, after waiting for the queue to go idle.

use vstd::prelude::*;

use crate::error::FrameError;
use crate::mainloop::Extent2D;

verus! {

/// Whether the device supports attachments with sample-count flag `f`,
/// given the conjunction of its color and depth sample-count masks.
pub open spec fn sample_count_supported(supported_counts: u32, f: u32) -> bool {
    supported_counts & f != 0
}

/// The largest sample count the device supports for both color and depth
/// attachments, up to and including `samples`; 1 when nothing higher
/// fits. `supported_counts` is the conjunction of the device's color and
/// depth sample-count masks, whose bits are the power-of-two counts
/// themselves.
pub fn max_samples(supported_counts: u32, samples: u16) -> (r: u32)
    ensures
        r == 1 || r == 2 || r == 4 || r == 8 || r == 16 || r == 32 || r == 64,
        r > 1 ==> r <= samples && sample_count_supported(supported_counts, r),
        forall|f: u32| (f == 2 || f == 4 || f == 8 || f == 16 || f == 32 || f == 64) && f
            <= samples && sample_count_supported(supported_counts, f) ==> f <= r,
{
    if 64 <= samples && supported_counts & 64 != 0 {
        64
    } else if 32 <= samples && supported_counts & 32 != 0 {
        32
    } else if 16 <= samples && supported_counts & 16 != 0 {
        16
    } else if 8 <= samples && supported_counts & 8 != 0 {
        8
    } else if 4 <= samples && supported_counts & 4 != 0 {
        4
    } else if 2 <= samples && supported_counts & 2 != 0 {
        2
    } else {
        1
    }
}

/// One framebuffer entry: the view of a swapchain image and the
/// framebuffer built from color, depth and that view.
#[derive(Clone, Copy, Debug, PartialEq, Eq, Structural)]
pub struct FbFrame {
    pub swapchain_image_view: u64,
    pub framebuffer: u64,
}

/// The attachment set and framebuffer entries of one successful `resize`.
struct Internals {
    extent: Extent2D,
    layers: u32,
    render_pass: u64,
    depth_image: u64,
    depth_image_view: u64,
    color: Option<(u64, u64)>,
    frames: Vec<FbFrame>,
}

/// Owns the attachments and per-swap-image framebuffers; `resize` is the
/// single mutation point.
pub struct FramebufferManager {
    internals: Option<Internals>,
    vr: bool,
    msaa_samples: u32,
    next_handle: u64,
    freed: u64,
}

/// The manager's abstract state.
#[verifier::ext_equal]
pub ghost struct FbView {
    /// Whether a `resize` has succeeded since construction or `destroy`.
    pub initialized: bool,
    /// Extent of the current attachment set.
    pub extent: Extent2D,
    /// Array-layer count of the current attachments: 2 for stereo, else 1.
    pub layers: u32,
    /// The render pass the current framebuffers are pinned to.
    pub render_pass: u64,
    /// The framebuffer entries, one per swapchain image.
    pub entries: Seq<FbFrame>,
    /// Whether attachments are built with two array layers.
    pub vr: bool,
    /// Multisample count; above 1 a separate color attachment exists.
    pub msaa_samples: u32,
    /// Handles ever allocated (also the next fresh handle).
    pub next: int,
    /// Handles released again.
    pub freed: int,
}

/// Handles one attachment set occupies besides its per-image entries:
/// depth image and view, plus color image and view when multisampling.
pub open spec fn base_handles(msaa_samples: u32) -> int {
    if msaa_samples > 1 {
        4
    } else {
        2
    }
}

/// Currently live handles.
pub open spec fn live_of(v: FbView) -> int {
    v.next - v.freed
}

/// The entry built `k` swap images into a set whose per-image handles
/// start at `start`: first the image view, then the framebuffer.
pub open spec fn fb_entry(start: int, k: int) -> FbFrame {
    FbFrame {
        swapchain_image_view: (start + 2 * k) as u64,
        framebuffer: (start + 2 * k + 1) as u64,
    }
}

/// Whether a resize to `n` swap images still has handle space.
pub open spec fn resize_fits(v: FbView, n: nat) -> bool {
    v.next + base_handles(v.msaa_samples) + 2 * n <= u64::MAX
}

/// The state after a successful `resize`: everything previously allocated
/// is released, then a fresh depth (and optional color) attachment and one
/// entry per swap image are allocated in order.
pub open spec fn resize_result(v: FbView, n: nat, e: Extent2D, rp: u64) -> FbView {
    let b = base_handles(v.msaa_samples);
    FbView {
        initialized: true,
        extent: e,
        layers: if v.vr {
            2u32
        } else {
            1u32
        },
        render_pass: rp,
        entries: Seq::new(n, |k: int| fb_entry(v.next + b, k)),
        vr: v.vr,
        msaa_samples: v.msaa_samples,
        next: v.next + b + 2 * n,
        freed: v.next,
    }
}

/// The abstract state of a manager with no live attachment set.
pub open spec fn uninit_view(vr: bool, msaa_samples: u32, next: int, freed: int) -> FbView {
    FbView {
        initialized: false,
        extent: Extent2D { width: 0, height: 0 },
        layers: 0,
        render_pass: 0,
        entries: Seq::<FbFrame>::empty(),
        vr,
        msaa_samples,
        next,
        freed,
    }
}

impl FramebufferManager {
    /// The manager's abstract state.
    pub closed spec fn view(&self) -> FbView {
        match self.internals {
            Some(i) => FbView {
                initialized: true,
                extent: i.extent,
                layers: i.layers,
                render_pass: i.render_pass,
                entries: i.frames@,
                vr: self.vr,
                msaa_samples: self.msaa_samples,
                next: self.next_handle as int,
                freed: self.freed as int,
            },
            None => uninit_view(self.vr, self.msaa_samples, self.next_handle as int, self.freed as int),
        }
    }

    /// Accounting and layout invariant: handles are consistent with the
    /// counters, and exactly the current attachment set is live.
    pub closed spec fn wf(&self) -> bool {
        &&& self.freed <= self.next_handle
        &&& match self.internals {
            None => self.freed == self.next_handle,
            Some(i) => {
                let b = base_handles(self.msaa_samples);
                &&& self.freed == i.depth_image
                &&& i.depth_image + b + 2 * i.frames@.len() == self.next_handle
                &&& i.depth_image_view == i.depth_image + 1
                &&& if self.msaa_samples > 1 {
                    i.color == Some(((i.depth_image + 2) as u64, (i.depth_image + 3) as u64))
                } else {
                    i.color is None
                }
                &&& forall|k: int| 0 <= k < i.frames@.len() ==> #[trigger] i.frames@[k]
                    == fb_entry(i.depth_image + b, k)
                &&& i.layers == (if self.vr {
                    2u32
                } else {
                    1u32
                })
            },
        }
    }

    /// Create a manager with no attachments yet. `msaa_samples` above 1
    /// adds a multisampled color attachment to every set built later.
    pub fn new(vr: bool, msaa_samples: u32) -> (r: Self)
        ensures
            r.wf(),
            r.view() == uninit_view(vr, msaa_samples, 0, 0),
    {
        FramebufferManager { internals: None, vr, msaa_samples, next_handle: 0, freed: 0 }
    }

    /// Rebuild the attachment set and framebuffer entries for a new swap
    /// image set.
    ///
    /// In order: the embedding's queue goes idle, the previous set is
    /// released (a never-initialized set frees nothing), then a depth
    /// attachment, the optional color attachment, and one entry per swap
    /// image are allocated, sized to `extent`, with two array layers for a
    /// stereo session and one otherwise, pinned to `render_pass`. Fails
    /// only when handle space is exhausted, leaving the state unchanged.
    pub fn resize(
        &mut self,
        swapchain_images: &Vec<u64>,
        extent: Extent2D,
        render_pass: u64,
    ) -> (r: Result<(), FrameError>)
        requires
            old(self).wf(),
        ensures
            final(self).wf(),
            r is Ok <==> resize_fits(old(self).view(), swapchain_images@.len()),
            r is Err ==> final(self).view() == old(self).view() && r == Err::<
                (),
                FrameError,
            >(FrameError::OutOfMemory),
            r is Ok ==> final(self).view() == resize_result(
                old(self).view(),
                swapchain_images@.len(),
                extent,
                render_pass,
            ),
    {
        let n = swapchain_images.len();
        let b: u64 = if self.msaa_samples > 1 {
            4
        } else {
            2
        };
        let doubled = match (n as u64).checked_mul(2) {
            Some(v) => v,
            None => {
                return Err(FrameError::OutOfMemory);
            },
        };
        let added = match doubled.checked_add(b) {
            Some(v) => v,
            None => {
                return Err(FrameError::OutOfMemory);
            },
        };
        let new_next = match self.next_handle.checked_add(added) {
            Some(v) => v,
            None => {
                return Err(FrameError::OutOfMemory);
            },
        };

        // The embedding waits for the queue to go idle here: no in-flight
        // frame may reference the attachments about to be released.
        self.freed = self.next_handle;
        self.internals = None;

        // Depth attachment (image, then its single view), then the color
        // attachment when multisampling.
        let start = self.next_handle;
        let depth_image = start;
        let depth_image_view = start + 1;
        let color: Option<(u64, u64)> = if self.msaa_samples > 1 {
            Some((start + 2, start + 3))
        } else {
            None
        };
        let layers: u32 = if self.vr {
            2
        } else {
            1
        };

        // One view and one framebuffer per swap image.
        let mut next = start + b;
        let mut frames: Vec<FbFrame> = Vec::new();
        let mut k: usize = 0;
        while k < n
            invariant
                k <= n,
                next == start + b + 2 * k,
                new_next == start + b + 2 * n,
                new_next <= u64::MAX,
                frames@.len() == k,
                forall|j: int| 0 <= j < k ==> #[trigger] frames@[j] == fb_entry(
                    start + b as int,
                    j,
                ),
            decreases n - k,
        {
            frames.push(FbFrame { swapchain_image_view: next, framebuffer: next + 1 });
            next = next + 2;
            k = k + 1;
        }

        self.next_handle = next;
        self.internals = Some(
            Internals {
                extent,
                layers,
                render_pass,
                depth_image,
                depth_image_view,
                color,
                frames,
            },
        );
        proof {
            assert(self.view().entries =~= resize_result(
                old(self).view(),
                swapchain_images@.len(),
                extent,
                render_pass,
            ).entries);
            assert(self.view() =~= resize_result(
                old(self).view(),
                swapchain_images@.len(),
                extent,
                render_pass,
            ));
        }
        Ok(())
    }

    /// The framebuffer to render into for the given swapchain image.
    /// Fails deterministically before the first successful `resize`, and on
    /// an image index outside the current set.
    pub fn frame(&self, swapchain_image_index: u32) -> (r: Result<u64, FrameError>)
        requires
            self.wf(),
        ensures
            r is Ok <==> self.view().initialized && (swapchain_image_index as int)
                < self.view().entries.len(),
            !self.view().initialized ==> r == Err::<u64, FrameError>(FrameError::Uninitialized),
            self.view().initialized && (swapchain_image_index as int)
                >= self.view().entries.len() ==> r == Err::<u64, FrameError>(
                FrameError::InvalidImageIndex,
            ),
            r is Ok ==> r == Ok::<u64, FrameError>(
                self.view().entries[swapchain_image_index as int].framebuffer,
            ),
    {
        match &self.internals {
            None => Err(FrameError::Uninitialized),
            Some(i) => {
                if (swapchain_image_index as usize) < i.frames.len() {
                    Ok(i.frames[swapchain_image_index as usize].framebuffer)
                } else {
                    Err(FrameError::InvalidImageIndex)
                }
            },
        }
    }

    /// The extent of the current attachment set. Fails deterministically
    /// before the first successful `resize`; it never reports a stale or
    /// default extent.
    pub fn extent(&self) -> (r: Result<Extent2D, FrameError>)
        ensures
            r is Ok <==> self.view().initialized,
            r is Ok ==> r == Ok::<Extent2D, FrameError>(self.view().extent),
            r is Err ==> r == Err::<Extent2D, FrameError>(FrameError::Uninitialized),
    {
        match &self.internals {
            None => Err(FrameError::Uninitialized),
            Some(i) => Ok(i.extent),
        }
    }

    /// The array-layer count of the current attachments, when a set is
    /// live.
    pub fn attachment_layers(&self) -> (r: Option<u32>)
        ensures
            r == (if self.view().initialized {
                Some(self.view().layers)
            } else {
                None::<u32>
            }),
    {
        match &self.internals {
            None => None,
            Some(i) => Some(i.layers),
        }
    }

    /// Release the current attachment set, mirroring `resize`'s cleanup;
    /// the embedding waits for the device to go idle first.
    pub fn destroy(&mut self)
        requires
            old(self).wf(),
        ensures
            final(self).wf(),
            final(self).view() == uninit_view(
                old(self).view().vr,
                old(self).view().msaa_samples,
                old(self).view().next,
                old(self).view().next,
            ),
    {
        self.freed = self.next_handle;
        self.internals = None;
        proof {
            assert(self.view() =~= uninit_view(
                old(self).view().vr,
                old(self).view().msaa_samples,
                old(self).view().next,
                old(self).view().next,
            ));
        }
    }

    /// How many handles were ever allocated.
    pub fn allocation_count(&self) -> (r: u64)
        ensures
            r == self.view().next,
    {
        self.next_handle
    }

    /// How many handles were released again.
    pub fn freed_count(&self) -> (r: u64)
        ensures
            r == self.view().freed,
    {
        self.freed
    }

    /// How many handles are currently live.
    pub fn live_handles(&self) -> (r: u64)
        requires
            self.wf(),
        ensures
            r == live_of(self.view()),
    {
        self.next_handle - self.freed
    }
}

/// Calling `resize` twice in a row with the same swap-image count, extent
/// and render pass leaves the same extent, the same count of framebuffer
/// entries and the same number of live handles as a single call: the
/// second call first releases everything the first one allocated, so
/// nothing leaks.
pub proof fn lemma_resize_idempotent(v: FbView, n: nat, e: Extent2D, rp: u64)
    requires
        resize_fits(v, n),
        resize_fits(resize_result(v, n, e, rp), n),
    ensures
        ({
            let once = resize_result(v, n, e, rp);
            let twice = resize_result(once, n, e, rp);
            &&& twice.extent == once.extent
            &&& twice.entries.len() == once.entries.len()
            &&& twice.layers == once.layers
            &&& live_of(twice) == live_of(once)
        }),
{
}

/// Round-trip: after `resize(images, extent, rp)`, the recorded extent is
/// exactly `extent`, so `extent()` returns it.
pub proof fn lemma_resize_extent_roundtrip(v: FbView, n: nat, e: Extent2D, rp: u64)
    ensures
        resize_result(v, n, e, rp).extent == e,
        resize_result(v, n, e, rp).initialized,
{
}

/// A stereo (VR) session gets attachments with two array layers; a desktop
/// session with the same extent gets one.
pub proof fn lemma_resize_layers(v: FbView, n: nat, e: Extent2D, rp: u64)
    ensures
        resize_result(v, n, e, rp).layers == (if v.vr {
            2u32
        } else {
            1u32
        }),
{
}

} // verus!
