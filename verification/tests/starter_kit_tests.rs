use watertender::app_info::{engine_version, make_version, AppInfo};
use watertender::defaults::FRAMES_IN_FLIGHT;
use watertender::error::FrameError;
use watertender::mainloop::{Extent2D, Frame, Platform};
use watertender::starter_kit::StarterKit;

fn extent(width: u32, height: u32) -> Extent2D {
    Extent2D { width, height }
}

#[test]
fn begin_before_resize_fails() {
    let mut kit = StarterKit::new(Platform::Winit, 1, 5);
    let r = kit.begin_command_buffer(Frame { swapchain_index: 0 });
    assert_eq!(r.map(|_| ()), Err(FrameError::Uninitialized));
}

#[test]
fn slot_advances_modulo_frames_in_flight() {
    let mut kit = StarterKit::new(Platform::Winit, 1, 5);
    let images = vec![100, 101, 102];
    assert_eq!(kit.swapchain_resize(&images, extent(800, 600)), Ok(()));

    let cmd = kit.begin_command_buffer(Frame { swapchain_index: 0 }).unwrap();
    assert_eq!(cmd.command_buffer, 0);
    assert_eq!(cmd.extent, extent(800, 600));
    assert_eq!(cmd.sync.fence, 0);
    let plan = kit.end_command_buffer(cmd);
    assert_eq!(plan.fence, 0);
    assert_eq!(plan.semaphores, Some((0, 1)));
    assert_eq!(kit.frame, 1);

    let cmd = kit.begin_command_buffer(Frame { swapchain_index: 1 }).unwrap();
    assert_eq!(cmd.command_buffer, 1);
    let plan = kit.end_command_buffer(cmd);
    assert_eq!(plan.fence, 1);
    assert_eq!(plan.semaphores, Some((2, 3)));
    // (slot + 1) mod N wraps back to the first slot.
    assert_eq!(kit.frame, 0);
    assert_eq!(FRAMES_IN_FLIGHT, 2);
}

#[test]
fn compositor_kit_submits_without_semaphores() {
    let mut kit = StarterKit::new(Platform::OpenXr, 1, 5);
    let images = vec![100, 101];
    assert_eq!(kit.swapchain_resize(&images, extent(1832, 1920)), Ok(()));
    // A VR session builds stereo attachments.
    assert_eq!(kit.framebuffer.attachment_layers(), Some(2));

    let cmd = kit.begin_command_buffer(Frame { swapchain_index: 1 }).unwrap();
    let plan = kit.end_command_buffer(cmd);
    assert_eq!(plan.semaphores, None);
}

#[test]
fn winit_sync_hands_out_current_pair() {
    let mut kit = StarterKit::new(Platform::Winit, 1, 5);
    let images = vec![100];
    assert_eq!(kit.swapchain_resize(&images, extent(640, 480)), Ok(()));
    assert_eq!(kit.winit_sync(), (0, 1));
    let cmd = kit.begin_command_buffer(Frame { swapchain_index: 0 }).unwrap();
    let _ = kit.end_command_buffer(cmd);
    assert_eq!(kit.winit_sync(), (2, 3));
}

#[test]
fn completed_frames_unblock_their_slot() {
    let mut kit = StarterKit::new(Platform::Winit, 1, 5);
    let images = vec![100, 101];
    assert_eq!(kit.swapchain_resize(&images, extent(800, 600)), Ok(()));

    let cmd = kit.begin_command_buffer(Frame { swapchain_index: 0 }).unwrap();
    let plan = kit.end_command_buffer(cmd);
    kit.frame_complete(plan.fence);

    let cmd = kit.begin_command_buffer(Frame { swapchain_index: 1 }).unwrap();
    let plan = kit.end_command_buffer(cmd);
    kit.frame_complete(plan.fence);

    // Both submissions completed: reusing slot 0 and image 0 blocks on
    // nothing.
    let cmd = kit.begin_command_buffer(Frame { swapchain_index: 0 }).unwrap();
    assert!(!cmd.sync.image_blocked);
    assert!(!cmd.sync.slot_blocked);
}

#[test]
fn bad_image_index_is_reported() {
    let mut kit = StarterKit::new(Platform::Winit, 1, 5);
    let images = vec![100];
    assert_eq!(kit.swapchain_resize(&images, extent(800, 600)), Ok(()));
    let r = kit.begin_command_buffer(Frame { swapchain_index: 3 });
    assert_eq!(r.map(|_| ()), Err(FrameError::InvalidImageIndex));
}

#[test]
fn platform_flags() {
    assert!(Platform::OpenXr.is_vr());
    assert!(!Platform::Winit.is_vr());
    assert!(Platform::Winit.is_interactive());
    assert!(!Platform::OpenXr.is_interactive());
}

#[test]
fn version_packing() {
    assert_eq!(make_version(1, 2, 3), (1 << 22) | (2 << 12) | 3);
    assert_eq!(make_version(1, 0, 0), 0x400000);
    assert_eq!(engine_version(), make_version(0, 1, 0));
}

#[test]
fn app_info_builders() {
    let info = AppInfo::default();
    assert_eq!(info.version, make_version(1, 0, 0));
    assert_eq!(info.api_version, make_version(1, 1, 0));
    assert!(!info.validation);

    let info = info
        .app_version(2, 1, 0)
        .vk_version(1, 2, 0)
        .validation(true)
        .name("demo".to_string())
        .unwrap();
    assert_eq!(info.version, make_version(2, 1, 0));
    assert_eq!(info.api_version, make_version(1, 2, 0));
    assert!(info.validation);
    assert_eq!(info.name, "demo");
}
