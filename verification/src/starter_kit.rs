//! The per-tick frame lifecycle, identical for both platforms: acquire
//! (done by the active controller), resize the framebuffers if asked,
//! synchronize, record, submit, present, advance the in-flight slot.
//!
//! [`StarterKit`] owns the pieces every frame needs — the framebuffer
//! manager, the synchronization primitives, the per-slot command buffers —
//! and hands the embedding one [`CommandBufferStart`] per frame on the way
//! in and one [`SubmitPlan`] on the way out.

use vstd::prelude::*;

use crate::defaults::FRAMES_IN_FLIGHT;
use crate::error::FrameError;
use crate::framebuffer_mgr::{resize_fits, resize_result, FramebufferManager};
use crate::mainloop::{Extent2D, Frame, Platform};
use crate::synchronization::{fences_after_image_wait, fences_after_sync, SyncReport, Synchronization};

verus! {

/// Everything the embedding needs to begin recording one frame: which
/// command buffer, which framebuffer, at which extent, and what the
/// synchronization step decided.
#[derive(Clone, Copy, Debug, PartialEq, Eq)]
pub struct CommandBufferStart {
    /// The in-flight slot's command buffer to record into.
    pub command_buffer: u64,
    /// The framebuffer bound to this frame's swapchain image.
    pub framebuffer: u64,
    /// The render-area and viewport extent.
    pub extent: Extent2D,
    /// What the synchronization step did; the embedding performs the
    /// device waits exactly where this says a wait happened.
    pub sync: SyncReport,
}

/// How to submit the recorded frame to the device queue.
#[derive(Clone, Copy, Debug, PartialEq, Eq)]
pub struct SubmitPlan {
    /// The slot's (image-available, render-finished) semaphore pair to
    /// wait on and signal, when presenting to an interactive surface.
    pub semaphores: Option<(u64, u64)>,
    /// The in-flight slot whose fence the submission must signal.
    pub fence: usize,
}

/// The platform-agnostic per-frame machinery.
pub struct StarterKit {
    pub framebuffer: FramebufferManager,
    pub sync: Synchronization,
    pub render_pass: u64,
    pub command_buffers: Vec<u64>,
    pub frame: usize,
}

impl StarterKit {
    /// The kit's pieces agree on the number of in-flight slots and the
    /// current slot is one of them.
    pub open spec fn wf(&self) -> bool {
        &&& self.sync.wf()
        &&& self.framebuffer.wf()
        &&& self.sync.frames() == FRAMES_IN_FLIGHT
        &&& self.command_buffers@.len() == FRAMES_IN_FLIGHT
        &&& (self.frame as int) < FRAMES_IN_FLIGHT
    }

    /// Assemble the per-frame machinery for the chosen platform: fences
    /// (and, for an interactive surface, semaphore pairs) for
    /// [`FRAMES_IN_FLIGHT`] slots, a framebuffer manager building stereo
    /// attachments when the platform is VR, and one command buffer per
    /// slot. `render_pass` is the externally supplied pass every
    /// framebuffer is built for.
    pub fn new(platform: Platform, msaa_samples: u32, render_pass: u64) -> (r: Self)
        ensures
            r.wf(),
            r.frame == 0,
            r.render_pass == render_pass,
            !r.framebuffer.view().initialized,
            r.framebuffer.view().vr == (platform is OpenXr),
            r.framebuffer.view().msaa_samples == msaa_samples,
            r.framebuffer.view().next == 0,
            r.framebuffer.view().freed == 0,
            r.sync.lut() == Map::<u32, usize>::empty(),
            forall|i: int| 0 <= i < FRAMES_IN_FLIGHT ==> #[trigger] r.sync.fences()[i],
            r.sync.pairs().len() == (if platform is Winit {
                FRAMES_IN_FLIGHT as int
            } else {
                0
            }),
            forall|i: int| 0 <= i < r.sync.pairs().len() ==> #[trigger] r.sync.pairs()[i] == ((2
                * i) as u64, (2 * i + 1) as u64),
            forall|i: int| 0 <= i < r.command_buffers@.len() ==> #[trigger] r.command_buffers@[i]
                == i as u64,
    {
        // Frame-to-frame sync; semaphores only when a swapchain is
        // presented to.
        let sync = Synchronization::new(FRAMES_IN_FLIGHT, platform.is_interactive());

        // Framebuffers, rebuilt on every swapchain resize.
        let framebuffer = FramebufferManager::new(platform.is_vr(), msaa_samples);

        // One primary command buffer per in-flight slot.
        let mut command_buffers: Vec<u64> = Vec::new();
        let mut i: usize = 0;
        while i < FRAMES_IN_FLIGHT
            invariant
                i <= FRAMES_IN_FLIGHT,
                command_buffers@.len() == i,
                forall|j: int| 0 <= j < i ==> #[trigger] command_buffers@[j] == j as u64,
            decreases FRAMES_IN_FLIGHT - i,
        {
            command_buffers.push(i as u64);
            i = i + 1;
        }

        StarterKit { framebuffer, sync, render_pass, command_buffers, frame: 0 }
    }

    /// Begin one frame: synchronize with the slot's fence and the
    /// swapchain image's registered fence, and hand out the command
    /// buffer, framebuffer and extent to record with. Fails exactly when
    /// no `swapchain_resize` has succeeded yet, or the swapchain image
    /// index is outside the current framebuffer set; nothing changes then.
    pub fn begin_command_buffer(&mut self, frame: Frame) -> (r: Result<
        CommandBufferStart,
        FrameError,
    >)
        requires
            old(self).wf(),
        ensures
            final(self).wf(),
            final(self).frame == old(self).frame,
            final(self).render_pass == old(self).render_pass,
            final(self).command_buffers == old(self).command_buffers,
            final(self).framebuffer.view() == old(self).framebuffer.view(),
            r is Ok <==> old(self).framebuffer.view().initialized && (frame.swapchain_index
                as int) < old(self).framebuffer.view().entries.len(),
            !old(self).framebuffer.view().initialized ==> r == Err::<
                CommandBufferStart,
                FrameError,
            >(FrameError::Uninitialized),
            old(self).framebuffer.view().initialized && (frame.swapchain_index as int) >= old(
                self,
            ).framebuffer.view().entries.len() ==> r == Err::<CommandBufferStart, FrameError>(
                FrameError::InvalidImageIndex,
            ),
            r is Err ==> final(self).sync.lut() == old(self).sync.lut() && final(self).sync.fences()
                == old(self).sync.fences(),
            final(self).sync.pairs() == old(self).sync.pairs(),
            r matches Ok(cmd) ==> {
                &&& final(self).sync.lut() == old(self).sync.lut().insert(
                    frame.swapchain_index,
                    old(self).frame,
                )
                &&& final(self).sync.fences() == fences_after_sync(
                    old(self).sync.fences(),
                    old(self).sync.lut(),
                    frame.swapchain_index,
                    old(self).frame as int,
                )
                &&& cmd.sync.fence == old(self).frame
                &&& cmd.sync.image_wait == (if old(self).sync.lut().contains_key(
                    frame.swapchain_index,
                ) {
                    Some(old(self).sync.lut()[frame.swapchain_index])
                } else {
                    None::<usize>
                })
                &&& cmd.sync.image_blocked == (old(self).sync.lut().contains_key(
                    frame.swapchain_index,
                ) && !old(self).sync.fences()[old(self).sync.lut()[frame.swapchain_index] as int])
                &&& cmd.sync.slot_blocked == !fences_after_image_wait(
                    old(self).sync.fences(),
                    old(self).sync.lut(),
                    frame.swapchain_index,
                )[old(self).frame as int]
                &&& cmd.command_buffer == old(self).command_buffers@[old(self).frame as int]
                &&& cmd.framebuffer == old(self).framebuffer.view().entries[frame.swapchain_index
                    as int].framebuffer
                &&& cmd.extent == old(self).framebuffer.view().extent
            },
    {
        let framebuffer = match self.framebuffer.frame(frame.swapchain_index) {
            Ok(f) => f,
            Err(e) => {
                return Err(e);
            },
        };
        let extent = match self.framebuffer.extent() {
            Ok(e) => e,
            Err(e) => {
                return Err(e);
            },
        };
        let sync = self.sync.sync(frame.swapchain_index, self.frame);
        let command_buffer = self.command_buffers[self.frame];
        Ok(CommandBufferStart { command_buffer, framebuffer, extent, sync })
    }

    /// End the frame: say how to submit it — with the slot's semaphore
    /// pair when presenting interactively, signaling the fence obtained at
    /// `begin_command_buffer` — and advance to the next in-flight slot.
    pub fn end_command_buffer(&mut self, cmd: CommandBufferStart) -> (r: SubmitPlan)
        requires
            old(self).wf(),
        ensures
            final(self).wf(),
            final(self).frame == (old(self).frame + 1) % (FRAMES_IN_FLIGHT as int),
            final(self).render_pass == old(self).render_pass,
            final(self).command_buffers == old(self).command_buffers,
            final(self).framebuffer.view() == old(self).framebuffer.view(),
            final(self).sync.lut() == old(self).sync.lut(),
            final(self).sync.fences() == old(self).sync.fences(),
            final(self).sync.pairs() == old(self).sync.pairs(),
            r.fence == cmd.sync.fence,
            r.semaphores == (if (old(self).frame as int) < old(self).sync.pairs().len() {
                Some(old(self).sync.pairs()[old(self).frame as int])
            } else {
                None::<(u64, u64)>
            }),
    {
        let semaphores = self.sync.swapchain_sync(self.frame);
        self.frame = (self.frame + 1) % FRAMES_IN_FLIGHT;
        SubmitPlan { semaphores, fence: cmd.sync.fence }
    }

    /// The command buffer of the current in-flight slot.
    pub fn current_command_buffer(&self) -> (r: u64)
        requires
            self.wf(),
        ensures
            r == self.command_buffers@[self.frame as int],
    {
        self.command_buffers[self.frame]
    }

    /// Rebuild the framebuffer set for a new swap-image set, against the
    /// kit's render pass. Must be called with the images and extent of
    /// every resize the controller reports, before the next frame renders.
    pub fn swapchain_resize(&mut self, images: &Vec<u64>, extent: Extent2D) -> (r: Result<
        (),
        FrameError,
    >)
        requires
            old(self).wf(),
        ensures
            final(self).wf(),
            final(self).frame == old(self).frame,
            final(self).render_pass == old(self).render_pass,
            final(self).command_buffers == old(self).command_buffers,
            final(self).sync.lut() == old(self).sync.lut(),
            final(self).sync.fences() == old(self).sync.fences(),
            final(self).sync.pairs() == old(self).sync.pairs(),
            r is Ok <==> resize_fits(old(self).framebuffer.view(), images@.len()),
            r is Err ==> final(self).framebuffer.view() == old(self).framebuffer.view() && r
                == Err::<(), FrameError>(FrameError::OutOfMemory),
            r is Ok ==> final(self).framebuffer.view() == resize_result(
                old(self).framebuffer.view(),
                images@.len(),
                extent,
                old(self).render_pass,
            ),
    {
        self.framebuffer.resize(images, extent, self.render_pass)
    }

    /// The current slot's semaphore pair, for the embedding's swapchain
    /// acquire and present; only an interactive session has them.
    pub fn winit_sync(&self) -> (r: (u64, u64))
        requires
            self.wf(),
            self.sync.pairs().len() != 0,
        ensures
            r == self.sync.pairs()[self.frame as int],
    {
        match self.sync.swapchain_sync(self.frame) {
            Some(pair) => pair,
            None => (0, 0),
        }
    }

    /// Record that the submission using the given slot's fence completed:
    /// the device signaled it.
    pub fn frame_complete(&mut self, slot: usize)
        requires
            old(self).wf(),
            (slot as int) < FRAMES_IN_FLIGHT,
        ensures
            final(self).wf(),
            final(self).frame == old(self).frame,
            final(self).render_pass == old(self).render_pass,
            final(self).command_buffers == old(self).command_buffers,
            final(self).framebuffer.view() == old(self).framebuffer.view(),
            final(self).sync.lut() == old(self).sync.lut(),
            final(self).sync.pairs() == old(self).sync.pairs(),
            final(self).sync.fences() == old(self).sync.fences().update(slot as int, true),
    {
        self.sync.signal(slot);
    }
}

} // verus!
