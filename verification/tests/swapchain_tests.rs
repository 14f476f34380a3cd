use watertender::error::FrameError;
use watertender::mainloop::{Extent2D, ResizeInfo};
use watertender::swapchain::{AcquireOutcome, FrameStep, PresentOutcome, Swapchain};

fn extent(width: u32, height: u32) -> Extent2D {
    Extent2D { width, height }
}

#[test]
fn plain_acquire_proceeds_without_resize() {
    let mut sc = Swapchain::new(vec![10, 11, 12], extent(800, 600));
    assert_eq!(sc.image_count(), 3);
    let step = sc.frame(AcquireOutcome::Acquired(2)).unwrap();
    assert_eq!(step, FrameStep::Proceed { image_index: 2, resize: None });
}

#[test]
fn scenario_out_of_date_rebuild_reports_one_resize() {
    let mut sc = Swapchain::new(vec![10, 11, 12], extent(800, 600));

    // The surface went out of date: the controller demands a rebuild.
    let step = sc.frame(AcquireOutcome::OutOfDate).unwrap();
    assert_eq!(step, FrameStep::Rebuild);
    assert!(sc.needs_rebuild());

    // The platform rebuilt the swapchain against current capabilities.
    sc.rebuild_swapchain(vec![20, 21], extent(1024, 768));
    assert_eq!(sc.image_count(), 2);

    // The retried acquire succeeds and carries exactly one ResizeInfo.
    let step = sc.frame(AcquireOutcome::Acquired(1)).unwrap();
    assert_eq!(
        step,
        FrameStep::Proceed {
            image_index: 1,
            resize: Some(ResizeInfo { images: vec![20, 21], extent: extent(1024, 768) }),
        }
    );

    // A subsequent acquire succeeds against the rebuilt set, with no
    // further resize report.
    let step = sc.frame(AcquireOutcome::Acquired(0)).unwrap();
    assert_eq!(step, FrameStep::Proceed { image_index: 0, resize: None });
}

#[test]
fn second_out_of_date_in_a_row_is_fatal() {
    let mut sc = Swapchain::new(vec![10], extent(800, 600));
    assert_eq!(sc.frame(AcquireOutcome::OutOfDate), Ok(FrameStep::Rebuild));
    sc.rebuild_swapchain(vec![20], extent(640, 480));
    // The retry fails too: escalated instead of looping forever.
    assert_eq!(sc.frame(AcquireOutcome::OutOfDate), Err(FrameError::SurfaceLost));
}

#[test]
fn present_out_of_date_is_advisory() {
    let mut sc = Swapchain::new(vec![10, 11], extent(800, 600));
    assert_eq!(sc.queue_present(PresentOutcome::Success), Ok(()));
    assert_eq!(sc.queue_present(PresentOutcome::OutOfDate), Ok(()));
    // The controller still acquires normally afterwards.
    let step = sc.frame(AcquireOutcome::Acquired(0)).unwrap();
    assert_eq!(step, FrameStep::Proceed { image_index: 0, resize: None });
}
