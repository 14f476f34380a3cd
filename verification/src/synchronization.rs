//! Frame/swapchain synchronization bookkeeping.
//!
//! One fence per in-flight slot (created signaled), plus a lookup table
//! recording which slot's fence last rendered into each swapchain image.
//! Fences are modeled by their signal state; the embedding performs the
//! actual device waits exactly where a [`SyncReport`] says a wait happened,
//! maps a wait timeout to device loss, and reports completed submissions
//! back through [`Synchronization::signal`].

use vstd::prelude::*;

use std::collections::HashMap;

verus! {

broadcast use vstd::std_specs::hash::group_hash_axioms;

/// What one [`Synchronization::sync`] call did.
#[derive(Clone, Copy, Debug, PartialEq, Eq)]
pub struct SyncReport {
    /// The in-flight slot whose (now unsignaled) fence must be signaled by
    /// the queue submission that renders this frame.
    pub fence: usize,
    /// The slot whose fence was registered for the swapchain image and was
    /// awaited before the image changed hands, if one was registered.
    pub image_wait: Option<usize>,
    /// The image wait found its fence unsignaled, so it blocked.
    pub image_blocked: bool,
    /// The slot's own fence was unsignaled when awaited, so it blocked.
    pub slot_blocked: bool,
}

/// Per-slot fences and the swapchain-image fence table.
pub struct Synchronization {
    in_flight_fences: Vec<bool>,
    swapchain_sync: Vec<(u64, u64)>,
    swapchain_img_lut: HashMap<u32, usize>,
}

/// The fence states after the wait on the fence registered for image
/// `idx`, if any: an awaited fence is signaled once the wait returns.
pub open spec fn fences_after_image_wait(
    fences: Seq<bool>,
    lut: Map<u32, usize>,
    idx: u32,
) -> Seq<bool> {
    if lut.contains_key(idx) {
        fences.update(lut[idx] as int, true)
    } else {
        fences
    }
}

/// The fence states after a whole `sync(idx, slot)` call: the image wait,
/// then the wait on the slot's own fence and its reset.
pub open spec fn fences_after_sync(
    fences: Seq<bool>,
    lut: Map<u32, usize>,
    idx: u32,
    slot: int,
) -> Seq<bool> {
    fences_after_image_wait(fences, lut, idx).update(slot, false)
}

/// The set of in-flight slots whose fence is registered for image `i`.
pub open spec fn image_owners(lut: Map<u32, usize>, i: u32) -> Set<usize> {
    if lut.contains_key(i) {
        set![lut[i]]
    } else {
        Set::<usize>::empty()
    }
}

impl Synchronization {
    /// Signal state of each slot's fence; `true` is signaled.
    pub closed spec fn fences(&self) -> Seq<bool> {
        self.in_flight_fences@
    }

    /// Number of in-flight slots.
    pub open spec fn frames(&self) -> nat {
        self.fences().len()
    }

    /// The fence table: which slot's fence last rendered into each image.
    pub closed spec fn lut(&self) -> Map<u32, usize> {
        self.swapchain_img_lut@
    }

    /// The per-slot (image-available, render-finished) semaphore pairs;
    /// empty when the session has no interactive presentation target.
    pub closed spec fn pairs(&self) -> Seq<(u64, u64)> {
        self.swapchain_sync@
    }

    /// Every fence in the table belongs to a slot, and semaphores exist
    /// either for every slot or for none.
    pub open spec fn wf(&self) -> bool {
        &&& forall|i: u32| #[trigger]
            self.lut().contains_key(i) ==> (self.lut()[i] as int) < self.frames()
        &&& self.pairs().len() == 0 || self.pairs().len() == self.frames()
    }

    /// Create the synchronization primitives for `frames_in_flight` slots.
    /// Fences start signaled; if `khr_sync` is set, one semaphore pair per
    /// slot is created for presenting to an interactive surface.
    pub fn new(frames_in_flight: usize, khr_sync: bool) -> (r: Self)
        requires
            frames_in_flight <= usize::MAX / 2,
        ensures
            r.wf(),
            r.frames() == frames_in_flight,
            forall|i: int| 0 <= i < frames_in_flight ==> #[trigger] r.fences()[i],
            r.lut() == Map::<u32, usize>::empty(),
            r.pairs().len() == (if khr_sync {
                frames_in_flight as int
            } else {
                0
            }),
            forall|i: int| 0 <= i < r.pairs().len() ==> #[trigger] r.pairs()[i] == ((2 * i) as u64, (2 * i + 1) as u64),
    {
        let mut in_flight_fences: Vec<bool> = Vec::new();
        let mut swapchain_sync: Vec<(u64, u64)> = Vec::new();
        let mut i: usize = 0;
        while i < frames_in_flight
            invariant
                i <= frames_in_flight,
                frames_in_flight <= usize::MAX / 2,
                in_flight_fences@.len() == i,
                forall|j: int| 0 <= j < i ==> #[trigger] in_flight_fences@[j],
                swapchain_sync@.len() == (if khr_sync {
                    i as int
                } else {
                    0
                }),
                forall|j: int| 0 <= j < swapchain_sync@.len() ==> #[trigger] swapchain_sync@[j]
                    == ((2 * j) as u64, (2 * j + 1) as u64),
            decreases frames_in_flight - i,
        {
            in_flight_fences.push(true);
            if khr_sync {
                let image_available = 2 * (i as u64);
                let render_finished = 2 * (i as u64) + 1;
                swapchain_sync.push((image_available, render_finished));
            }
            i = i + 1;
        }
        Synchronization { in_flight_fences, swapchain_sync, swapchain_img_lut: HashMap::new() }
    }

    /// Synchronize with per-frame GPU resources and the swapchain image.
    ///
    /// If a fence is registered for `swapchain_image_index`, the device is
    /// first awaited on it, so a new frame never writes into an image the
    /// presentation engine has not finished with. Then the slot's own fence
    /// is awaited and reset, gating CPU-side reuse of per-slot resources,
    /// and recorded as the new owner of the image. The returned report says
    /// which waits happened and which of them actually blocked.
    pub fn sync(&mut self, swapchain_image_index: u32, frame: usize) -> (r: SyncReport)
        requires
            old(self).wf(),
            (frame as int) < old(self).frames(),
        ensures
            final(self).wf(),
            final(self).frames() == old(self).frames(),
            final(self).pairs() == old(self).pairs(),
            final(self).lut() == old(self).lut().insert(swapchain_image_index, frame),
            final(self).fences() == fences_after_sync(
                old(self).fences(),
                old(self).lut(),
                swapchain_image_index,
                frame as int,
            ),
            r.fence == frame,
            r.image_wait == (if old(self).lut().contains_key(swapchain_image_index) {
                Some(old(self).lut()[swapchain_image_index])
            } else {
                None::<usize>
            }),
            r.image_blocked == (old(self).lut().contains_key(swapchain_image_index) && !old(
                self,
            ).fences()[old(self).lut()[swapchain_image_index] as int]),
            r.slot_blocked == !fences_after_image_wait(
                old(self).fences(),
                old(self).lut(),
                swapchain_image_index,
            )[frame as int],
    {
        // Ensure this swapchain image is not still in use by the device:
        // wait on the fence registered for it, which leaves it signaled.
        let mut image_wait: Option<usize> = None;
        let mut image_blocked: bool = false;
        let registered: Option<usize> = match self.swapchain_img_lut.get(&swapchain_image_index) {
            Some(j) => Some(*j),
            None => None,
        };
        if let Some(j) = registered {
            proof {
                assert(self.lut().contains_key(swapchain_image_index) && self.lut()[
                    swapchain_image_index] == j);
            }
            image_wait = Some(j);
            image_blocked = !self.in_flight_fences[j];
            self.in_flight_fences.set(j, true);
        }

        // Ensure this slot is not still in use by the device, then reset
        // its fence; the coming submission must signal it.
        let slot_blocked = !self.in_flight_fences[frame];
        self.in_flight_fences.set(frame, false);

        self.swapchain_img_lut.insert(swapchain_image_index, frame);
        proof {
            assert(self.lut() == old(self).lut().insert(swapchain_image_index, frame));
            assert forall|i: u32| #[trigger] self.lut().contains_key(i) implies (self.lut()[i]
                as int) < self.frames() by {
                if i != swapchain_image_index {
                    assert(old(self).lut().contains_key(i));
                }
            }
        }
        SyncReport { fence: frame, image_wait, image_blocked, slot_blocked }
    }

    /// Record that the device signaled the given slot's fence: the
    /// submission that last used it has completed.
    pub fn signal(&mut self, frame: usize)
        requires
            old(self).wf(),
            (frame as int) < old(self).frames(),
        ensures
            final(self).wf(),
            final(self).frames() == old(self).frames(),
            final(self).pairs() == old(self).pairs(),
            final(self).lut() == old(self).lut(),
            final(self).fences() == old(self).fences().update(frame as int, true),
    {
        self.in_flight_fences.set(frame, true);
        proof {
            assert(self.lut() == old(self).lut());
            assert(forall|i: u32| #[trigger] self.lut().contains_key(i) ==> (self.lut()[i]
                as int) < self.frames());
        }
    }

    /// Number of in-flight slots.
    pub fn frame_count(&self) -> (r: usize)
        ensures
            r == self.frames(),
    {
        self.in_flight_fences.len()
    }

    /// Whether semaphore pairs exist: the session presents to an
    /// interactive surface.
    pub fn interactive(&self) -> (r: bool)
        ensures
            r == (self.pairs().len() != 0),
    {
        self.swapchain_sync.len() != 0
    }

    /// The swapchain semaphore pair of the given slot, or `None` past the
    /// allocated pairs (in particular, always `None` without an
    /// interactive surface).
    pub fn swapchain_sync(&self, frame: usize) -> (r: Option<(u64, u64)>)
        ensures
            r == (if (frame as int) < self.pairs().len() {
                Some(self.pairs()[frame as int])
            } else {
                None::<(u64, u64)>
            }),
    {
        if frame < self.swapchain_sync.len() {
            Some(self.swapchain_sync[frame])
        } else {
            None
        }
    }
}

/// The fence table after a sequence of `sync` calls, each given as
/// (swapchain image index, in-flight slot), starting from `lut`.
pub open spec fn lut_after(lut: Map<u32, usize>, calls: Seq<(u32, usize)>) -> Map<u32, usize>
    decreases calls.len(),
{
    if calls.len() == 0 {
        lut
    } else {
        lut_after(lut, calls.drop_last()).insert(calls.last().0, calls.last().1)
    }
}

/// Mutual exclusion per physical image, over whole histories: starting
/// from a table that assigns each image at most one fence (the empty table
/// does), any sequence of `sync` calls leaves every image with at most one
/// registered fence; and when the history is non-empty, the image of the
/// latest call is owned by exactly that call's slot.
pub proof fn lemma_sync_trace_exclusive(lut: Map<u32, usize>, calls: Seq<(u32, usize)>, i: u32)
    requires
        image_owners(lut, i).len() <= 1,
    ensures
        image_owners(lut_after(lut, calls), i).len() <= 1,
        calls.len() > 0 ==> image_owners(lut_after(lut, calls), calls.last().0) == set![
            calls.last().1,
        ],
    decreases calls.len(),
{
    if calls.len() > 0 {
        lemma_sync_trace_exclusive(lut, calls.drop_last(), i);
        lemma_sync_image_exclusive(lut_after(lut, calls.drop_last()), calls.last().0, calls.last().1);
        if i != calls.last().0 {
            assert(image_owners(lut_after(lut, calls), i) == image_owners(
                lut_after(lut, calls.drop_last()),
                i,
            ));
        }
    }
}

/// Mutual exclusion per physical image: an image never has two fences
/// registered at once; after `sync(idx, slot)` the one fence registered
/// for `idx` is the returned slot's, and every other image keeps its
/// owner.
pub proof fn lemma_sync_image_exclusive(lut: Map<u32, usize>, idx: u32, slot: usize)
    ensures
        image_owners(lut, idx).len() <= 1,
        image_owners(lut.insert(idx, slot), idx) == set![slot],
        forall|i: u32| i != idx ==> image_owners(lut.insert(idx, slot), i) == image_owners(lut, i),
{
    if lut.contains_key(idx) {
        assert(image_owners(lut, idx) =~= Set::<usize>::empty().insert(lut[idx]));
    }
    assert(image_owners(lut.insert(idx, slot), idx) =~= set![slot]);
    assert forall|i: u32| i != idx implies image_owners(lut.insert(idx, slot), i) == image_owners(
        lut,
        i,
    ) by {
        assert(image_owners(lut.insert(idx, slot), i) =~= image_owners(lut, i));
    }
}

/// Happens-before per physical image: a fence displaced from an image by
/// `sync(idx, slot)` was driven to signaled — that is, waited on — before
/// the image changed hands.
pub proof fn lemma_sync_displaced_fence_signaled(
    lut: Map<u32, usize>,
    fences: Seq<bool>,
    idx: u32,
    slot: usize,
)
    requires
        lut.contains_key(idx),
        lut[idx] != slot,
        (lut[idx] as int) < fences.len(),
        (slot as int) < fences.len(),
    ensures
        fences_after_sync(fences, lut, idx, slot as int)[lut[idx] as int],
{
}

} // verus!
