use watertender::error::FrameError;
use watertender::framebuffer_mgr::{max_samples, FramebufferManager};
use watertender::mainloop::Extent2D;
use watertender::memory::pad_size;

fn extent(width: u32, height: u32) -> Extent2D {
    Extent2D { width, height }
}

#[test]
fn boundary_fails_before_first_resize() {
    let fb = FramebufferManager::new(false, 1);
    assert_eq!(fb.frame(0), Err(FrameError::Uninitialized));
    assert_eq!(fb.extent(), Err(FrameError::Uninitialized));
    assert_eq!(fb.attachment_layers(), None);
}

#[test]
fn extent_roundtrip_after_resize() {
    let mut fb = FramebufferManager::new(false, 1);
    let images = vec![11, 22, 33];
    assert_eq!(fb.resize(&images, extent(800, 600), 7), Ok(()));
    assert_eq!(fb.extent(), Ok(extent(800, 600)));
}

#[test]
fn resize_is_idempotent() {
    let mut fb = FramebufferManager::new(false, 1);
    let images = vec![11, 22, 33];
    assert_eq!(fb.resize(&images, extent(800, 600), 7), Ok(()));
    let live_once = fb.live_handles();
    let extent_once = fb.extent();

    assert_eq!(fb.resize(&images, extent(800, 600), 7), Ok(()));
    // Same extent, same entry count, no leaked attachments.
    assert_eq!(fb.extent(), extent_once);
    assert_eq!(fb.live_handles(), live_once);
    assert!(fb.frame(2).is_ok());
    assert_eq!(fb.frame(3), Err(FrameError::InvalidImageIndex));
}

#[test]
fn scenario_shrinking_resize_releases_previous_set() {
    let mut fb = FramebufferManager::new(false, 1);
    let three = vec![1, 2, 3];
    assert_eq!(fb.resize(&three, extent(800, 600), 9), Ok(()));
    // depth image + view, plus a view and framebuffer per swap image
    assert_eq!(fb.live_handles(), 2 + 2 * 3);
    let allocated_by_first = fb.allocation_count();

    let two = vec![4, 5];
    assert_eq!(fb.resize(&two, extent(1024, 768), 9), Ok(()));
    // Exactly two entries sized to the new extent.
    assert_eq!(fb.extent(), Ok(extent(1024, 768)));
    assert!(fb.frame(0).is_ok());
    assert!(fb.frame(1).is_ok());
    assert_eq!(fb.frame(2), Err(FrameError::InvalidImageIndex));
    // Everything the first resize allocated was released.
    assert_eq!(fb.freed_count(), allocated_by_first);
    assert_eq!(fb.live_handles(), 2 + 2 * 2);

    // Destruction mirrors the cleanup: net zero handles leaked, and the
    // manager is back to failing deterministically.
    fb.destroy();
    assert_eq!(fb.live_handles(), 0);
    assert_eq!(fb.freed_count(), fb.allocation_count());
    assert_eq!(fb.extent(), Err(FrameError::Uninitialized));
    assert_eq!(fb.frame(0), Err(FrameError::Uninitialized));
}

#[test]
fn stereo_resize_uses_two_layers() {
    let mut vr = FramebufferManager::new(true, 1);
    let mut desktop = FramebufferManager::new(false, 1);
    let images = vec![1, 2];
    assert_eq!(vr.resize(&images, extent(1600, 900), 3), Ok(()));
    assert_eq!(desktop.resize(&images, extent(1600, 900), 3), Ok(()));
    assert_eq!(vr.attachment_layers(), Some(2));
    assert_eq!(desktop.attachment_layers(), Some(1));
}

#[test]
fn multisampled_set_holds_color_attachment_handles() {
    let mut fb = FramebufferManager::new(false, 4);
    let images = vec![1, 2];
    assert_eq!(fb.resize(&images, extent(640, 480), 3), Ok(()));
    // depth image + view, color image + view, then two entries
    assert_eq!(fb.live_handles(), 4 + 2 * 2);
}

#[test]
fn framebuffer_handles_are_distinct() {
    let mut fb = FramebufferManager::new(false, 1);
    let images = vec![1, 2, 3];
    assert_eq!(fb.resize(&images, extent(320, 200), 3), Ok(()));
    let f0 = fb.frame(0).unwrap();
    let f1 = fb.frame(1).unwrap();
    let f2 = fb.frame(2).unwrap();
    assert!(f0 != f1 && f1 != f2 && f0 != f2);
}

#[test]
fn max_samples_picks_largest_supported() {
    let all: u32 = 0x7f;
    assert_eq!(max_samples(all, 64), 64);
    assert_eq!(max_samples(all, 16), 16);
    assert_eq!(max_samples(all, 3), 2);
    assert_eq!(max_samples(all, 1), 1);
    // Requested count is a cap, not a promise: unsupported counts are
    // skipped downward.
    assert_eq!(max_samples(0b0000111, 64), 4);
    assert_eq!(max_samples(0, 64), 1);
}

#[test]
fn pad_size_rounds_up_to_alignment() {
    assert_eq!(pad_size(0, 5), 5);
    assert_eq!(pad_size(64, 1), 64);
    assert_eq!(pad_size(256, 256), 256);
    assert_eq!(pad_size(16, 17), 32);
    assert_eq!(pad_size(4, 0), 0);
}
