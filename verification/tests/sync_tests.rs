use watertender::synchronization::Synchronization;

#[test]
fn fences_start_signaled_first_sync_is_immediate() {
    let mut sync = Synchronization::new(2, false);
    let report = sync.sync(0, 0);
    assert_eq!(report.fence, 0);
    assert_eq!(report.image_wait, None);
    assert!(!report.image_blocked);
    assert!(!report.slot_blocked);
}

#[test]
fn scenario_headless_two_slots_same_image() {
    // Two in-flight slots, no interactive session.
    let mut sync = Synchronization::new(2, false);

    // First frame: nothing is registered for image 0 and slot 0's fence
    // starts signaled, so sync returns immediately.
    let first = sync.sync(0, 0);
    assert!(!first.image_blocked && !first.slot_blocked);

    // The device completes frame 0's submission, signaling slot 0's fence.
    sync.signal(0);

    // Second frame into the same image from slot 1: slot 0's fence is
    // already signaled, so the image wait does not block; only slot 1's
    // own fence gates the call (and it is still signaled here).
    let second = sync.sync(0, 1);
    assert_eq!(second.fence, 1);
    assert_eq!(second.image_wait, Some(0));
    assert!(!second.image_blocked);
    assert!(!second.slot_blocked);
}

#[test]
fn image_wait_blocks_while_previous_frame_is_incomplete() {
    let mut sync = Synchronization::new(2, false);
    let _ = sync.sync(0, 0);
    // Without a completed submission, slot 0's fence is still unsignaled,
    // so handing image 0 to slot 1 must block on it first.
    let second = sync.sync(0, 1);
    assert_eq!(second.image_wait, Some(0));
    assert!(second.image_blocked);
}

#[test]
fn image_exclusion_interleaved_syncs() {
    let mut sync = Synchronization::new(3, false);
    let a = sync.sync(0, 0);
    let b = sync.sync(1, 1);
    assert_eq!(a.fence, 0);
    assert_eq!(b.fence, 1);
    // Image 1 keeps its own owner: syncing it again waits on slot 1, not
    // on slot 0.
    let c = sync.sync(1, 2);
    assert_eq!(c.image_wait, Some(1));
    // And image 0 still belongs to slot 0.
    let d = sync.sync(0, 1);
    assert_eq!(d.image_wait, Some(0));
}

#[test]
fn slot_wait_blocks_until_signal() {
    let mut sync = Synchronization::new(2, false);
    let _ = sync.sync(0, 0);
    let _ = sync.sync(1, 1);
    // Reusing slot 0 before its submission completed blocks on its fence.
    let again = sync.sync(2, 0);
    assert!(again.slot_blocked);
    // After completion the slot is free immediately.
    sync.signal(1);
    let fresh = sync.sync(3, 1);
    assert!(!fresh.slot_blocked);
}

#[test]
fn swapchain_sync_pairs_per_slot() {
    let sync = Synchronization::new(2, true);
    assert!(sync.interactive());
    assert_eq!(sync.frame_count(), 2);
    assert_eq!(sync.swapchain_sync(0), Some((0, 1)));
    assert_eq!(sync.swapchain_sync(1), Some((2, 3)));
    assert_eq!(sync.swapchain_sync(2), None);
}

#[test]
fn no_semaphores_without_interactive_surface() {
    let sync = Synchronization::new(2, false);
    assert!(!sync.interactive());
    assert_eq!(sync.swapchain_sync(0), None);
    assert_eq!(sync.swapchain_sync(1), None);
}
