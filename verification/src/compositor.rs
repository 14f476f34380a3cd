//! VR compositor controller: the swap-image set owned by the compositor
//! runtime, the per-frame wait / begin / acquire / release / end bracket,
//! and the session lifecycle the runtime drives.
//!
//! The compositor — not this subsystem — drives session-level state
//! transitions; [`SessionLifecycle`] turns each polled event into the one
//! action the loop must take. Within a running session, [`Swapchain`]
//! enforces the frame bracket: every begun frame is ended exactly once,
//! also when the compositor asks for the frame not to be rendered —
//! skipping the end call would desynchronize the compositor's accounting.

use vstd::prelude::*;

use crate::error::FrameError;
use crate::mainloop::{Extent2D, ResizeInfo};
use crate::swapchain::copy_handles;

verus! {

/// Frame timing the compositor hands out when it is ready for a frame.
#[derive(Clone, Copy, Debug, PartialEq, Eq, Structural)]
pub struct FrameState {
    /// Whether the frame should be rendered at all; when false (e.g.
    /// occluded), the frame bracket is still closed with an empty end.
    pub should_render: bool,
    /// When the frame is predicted to be displayed, in runtime time.
    pub predicted_display_time: i64,
}

/// The compositor-owned swap images and their extent.
struct SwapImages {
    images: Vec<u64>,
    extent: Extent2D,
}

/// The compositor-driven swapchain and its frame bracket.
pub struct Swapchain {
    swapchain: Option<SwapImages>,
    bracket_open: bool,
    image_acquired: bool,
    pending_resize: bool,
}

impl Swapchain {
    /// Whether the swap-image set has been built yet. There is no surface
    /// to query ahead of time: the set is built lazily on first use, from
    /// the runtime's view configuration.
    pub closed spec fn has_swapchain(&self) -> bool {
        self.swapchain is Some
    }

    /// The current swap images.
    pub closed spec fn images_spec(&self) -> Seq<u64> {
        self.swapchain->Some_0.images@
    }

    /// The current extent.
    pub closed spec fn extent_spec(&self) -> Extent2D {
        self.swapchain->Some_0.extent
    }

    /// Whether a begun frame has not been ended yet.
    pub closed spec fn bracket_open_spec(&self) -> bool {
        self.bracket_open
    }

    /// Whether an image is acquired and not yet released.
    pub closed spec fn image_acquired_spec(&self) -> bool {
        self.image_acquired
    }

    /// Whether a freshly built image set has not been reported yet.
    pub closed spec fn pending_resize_spec(&self) -> bool {
        self.pending_resize
    }

    /// An image is acquired only inside an open bracket of a built
    /// swapchain, and a resize can be pending only once a set exists.
    pub open spec fn wf(&self) -> bool {
        &&& self.image_acquired_spec() ==> self.bracket_open_spec() && self.has_swapchain()
        &&& self.pending_resize_spec() ==> self.has_swapchain()
    }

    /// A controller with no swap-image set yet and a closed bracket.
    pub fn new() -> (r: Self)
        ensures
            r.wf(),
            !r.has_swapchain(),
            !r.bracket_open_spec(),
            !r.image_acquired_spec(),
            !r.pending_resize_spec(),
    {
        Swapchain { swapchain: None, bracket_open: false, image_acquired: false, pending_resize: false }
    }

    /// Whether the swap-image set must be built before an image can be
    /// acquired.
    pub fn needs_swapchain(&self) -> (r: bool)
        ensures
            r == !self.has_swapchain(),
    {
        match &self.swapchain {
            None => true,
            Some(_) => false,
        }
    }

    /// Number of images in the current set.
    pub fn image_count(&self) -> (r: usize)
        requires
            self.has_swapchain(),
        ensures
            r == self.images_spec().len(),
    {
        match &self.swapchain {
            Some(s) => s.images.len(),
            None => 0,
        }
    }

    /// The current extent, once a set exists.
    pub fn current_extent(&self) -> (r: Option<Extent2D>)
        ensures
            r == (if self.has_swapchain() {
                Some(self.extent_spec())
            } else {
                None::<Extent2D>
            }),
    {
        match &self.swapchain {
            Some(s) => Some(s.extent),
            None => None,
        }
    }

    /// Whether a begun frame is awaiting its end.
    pub fn bracket_open(&self) -> (r: bool)
        ensures
            r == self.bracket_open_spec(),
    {
        self.bracket_open
    }

    /// Open the frame bracket, after the compositor's cooperative wait
    /// signaled it is ready to accept a new frame's timing.
    pub fn begin(&mut self)
        requires
            old(self).wf(),
            !old(self).bracket_open_spec(),
        ensures
            final(self).wf(),
            final(self).bracket_open_spec(),
            !final(self).image_acquired_spec(),
            final(self).has_swapchain() == old(self).has_swapchain(),
            final(self).pending_resize_spec() == old(self).pending_resize_spec(),
            old(self).has_swapchain() ==> final(self).images_spec() == old(self).images_spec()
                && final(self).extent_spec() == old(self).extent_spec(),
    {
        self.bracket_open = true;
    }

    /// Close the bracket with an empty submission, for a frame the
    /// compositor asked not to render. Skipping this would desynchronize
    /// the compositor's internal accounting.
    pub fn end_empty(&mut self)
        requires
            old(self).wf(),
            old(self).bracket_open_spec(),
            !old(self).image_acquired_spec(),
        ensures
            final(self).wf(),
            !final(self).bracket_open_spec(),
            !final(self).image_acquired_spec(),
            final(self).has_swapchain() == old(self).has_swapchain(),
            final(self).pending_resize_spec() == old(self).pending_resize_spec(),
            old(self).has_swapchain() ==> final(self).images_spec() == old(self).images_spec()
                && final(self).extent_spec() == old(self).extent_spec(),
    {
        self.bracket_open = false;
    }

    /// Install the swap-image set built from the runtime's view
    /// configuration: the dimensions come from the runtime, not from a
    /// surface. The new set is reported with the next acquire.
    pub fn create_swapchain(&mut self, images: Vec<u64>, extent: Extent2D)
        requires
            old(self).wf(),
            !old(self).has_swapchain(),
        ensures
            final(self).wf(),
            final(self).has_swapchain(),
            final(self).images_spec() == images@,
            final(self).extent_spec() == extent,
            final(self).pending_resize_spec(),
            final(self).bracket_open_spec() == old(self).bracket_open_spec(),
            !final(self).image_acquired_spec(),
    {
        self.swapchain = Some(SwapImages { images, extent });
        self.pending_resize = true;
    }

    /// Record the image index the compositor handed out, after the
    /// embedding's wait for it to become writable. Reports a freshly built
    /// image set exactly once.
    pub fn acquire_image(&mut self, index: u32) -> (r: (u32, Option<ResizeInfo>))
        requires
            old(self).wf(),
            old(self).bracket_open_spec(),
            !old(self).image_acquired_spec(),
            old(self).has_swapchain(),
            (index as int) < old(self).images_spec().len(),
        ensures
            final(self).wf(),
            final(self).image_acquired_spec(),
            final(self).bracket_open_spec(),
            final(self).has_swapchain(),
            final(self).images_spec() == old(self).images_spec(),
            final(self).extent_spec() == old(self).extent_spec(),
            !final(self).pending_resize_spec(),
            r.0 == index,
            r.1 is Some <==> old(self).pending_resize_spec(),
            r.1 matches Some(info) ==> info.images@ == old(self).images_spec() && info.extent
                == old(self).extent_spec(),
    {
        let resize: Option<ResizeInfo> = if self.pending_resize {
            match &self.swapchain {
                Some(s) => {
                    let images = copy_handles(&s.images);
                    Some(ResizeInfo { images, extent: s.extent })
                },
                None => None,
            }
        } else {
            None
        };
        self.pending_resize = false;
        self.image_acquired = true;
        (index, resize)
    }

    /// Release the acquired image back to the compositor and end the
    /// frame bracket. This is where the embedding supplies both eyes'
    /// poses and fields of view for compositing.
    pub fn queue_present(&mut self) -> (r: Result<(), FrameError>)
        requires
            old(self).wf(),
            old(self).bracket_open_spec(),
            old(self).image_acquired_spec(),
        ensures
            final(self).wf(),
            r is Ok,
            !final(self).bracket_open_spec(),
            !final(self).image_acquired_spec(),
            final(self).has_swapchain(),
            final(self).images_spec() == old(self).images_spec(),
            final(self).extent_spec() == old(self).extent_spec(),
            final(self).pending_resize_spec() == old(self).pending_resize_spec(),
    {
        self.image_acquired = false;
        self.bracket_open = false;
        Ok(())
    }
}

/// A session state reported by the compositor runtime.
#[derive(Clone, Copy, Debug, PartialEq, Eq, Structural)]
pub enum SessionState {
    Idle,
    Ready,
    Synchronized,
    Visible,
    Focused,
    Stopping,
    Exiting,
    LossPending,
}

/// An event polled from the compositor runtime.
#[derive(Clone, Copy, Debug, PartialEq, Eq, Structural)]
pub enum SessionEvent {
    StateChanged(SessionState),
    InstanceLossPending,
    EventsLost,
    Other,
}

/// The one action the loop must take for an event.
#[derive(Clone, Copy, Debug, PartialEq, Eq, Structural)]
pub enum SessionAction {
    /// Begin the session with the runtime.
    BeginSession,
    /// End the session with the runtime.
    EndSession,
    /// Leave the loop: the runtime is exiting or losing the instance.
    ExitLoop,
    /// Nothing to do.
    Ignore,
}

/// Tracks whether the compositor session is running; transitions are
/// driven by the runtime's events, never by this subsystem.
pub struct SessionLifecycle {
    running: bool,
}

impl SessionLifecycle {
    /// Whether the session is currently running.
    pub closed spec fn running_spec(&self) -> bool {
        self.running
    }

    /// A session that has not been started by the runtime yet.
    pub fn new() -> (r: Self)
        ensures
            !r.running_spec(),
    {
        SessionLifecycle { running: false }
    }

    /// Whether the session is currently running.
    pub fn is_running(&self) -> (r: bool)
        ensures
            r == self.running_spec(),
    {
        self.running
    }

    /// While the session is not running, the loop idle-waits briefly each
    /// tick instead of spinning at full CPU.
    pub fn should_idle(&self) -> (r: bool)
        ensures
            r == !self.running_spec(),
    {
        !self.running
    }

    /// Turn one polled event into the action the loop must take.
    ///
    /// `Ready` begins the session, `Stopping` ends it; `Exiting`,
    /// `LossPending` and a pending instance loss are terminal and
    /// propagated upward rather than recovered from; everything else is
    /// ignored.
    pub fn handle_event(&mut self, event: &SessionEvent) -> (r: SessionAction)
        ensures
            match event {
                SessionEvent::StateChanged(s) => match s {
                    SessionState::Ready => r == SessionAction::BeginSession
                        && final(self).running_spec(),
                    SessionState::Stopping => r == SessionAction::EndSession
                        && !final(self).running_spec(),
                    SessionState::Exiting | SessionState::LossPending => r
                        == SessionAction::ExitLoop
                        && final(self).running_spec() == old(self).running_spec(),
                    _ => r == SessionAction::Ignore
                        && final(self).running_spec() == old(self).running_spec(),
                },
                SessionEvent::InstanceLossPending => r == SessionAction::ExitLoop
                    && final(self).running_spec() == old(self).running_spec(),
                _ => r == SessionAction::Ignore
                    && final(self).running_spec() == old(self).running_spec(),
            },
    {
        match event {
            SessionEvent::StateChanged(s) => match s {
                SessionState::Ready => {
                    self.running = true;
                    SessionAction::BeginSession
                },
                SessionState::Stopping => {
                    self.running = false;
                    SessionAction::EndSession
                },
                SessionState::Exiting | SessionState::LossPending => SessionAction::ExitLoop,
                _ => SessionAction::Ignore,
            },
            SessionEvent::InstanceLossPending => SessionAction::ExitLoop,
            _ => SessionAction::Ignore,
        }
    }
}

} // verus!
