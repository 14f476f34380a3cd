use watertender::compositor::{
    SessionAction, SessionEvent, SessionLifecycle, SessionState, Swapchain,
};
use watertender::mainloop::Extent2D;

fn extent(width: u32, height: u32) -> Extent2D {
    Extent2D { width, height }
}

#[test]
fn lazy_swapchain_reports_resize_on_first_acquire() {
    let mut sc = Swapchain::new();
    assert!(sc.needs_swapchain());

    sc.begin();
    sc.create_swapchain(vec![40, 41], extent(1832, 1920));
    let (index, resize) = sc.acquire_image(0);
    assert_eq!(index, 0);
    let info = resize.expect("first acquire must report the new image set");
    assert_eq!(info.images, vec![40, 41]);
    assert_eq!(info.extent, extent(1832, 1920));
    assert_eq!(sc.queue_present(), Ok(()));
    assert!(!sc.bracket_open());

    // The next frame reuses the set without a resize report.
    sc.begin();
    let (index, resize) = sc.acquire_image(1);
    assert_eq!(index, 1);
    assert!(resize.is_none());
    assert_eq!(sc.queue_present(), Ok(()));
}

#[test]
fn skipped_frame_still_closes_the_bracket() {
    let mut sc = Swapchain::new();
    // The compositor asked for no rendering: begin and end must still
    // bracket the frame, with an empty submission.
    sc.begin();
    assert!(sc.bracket_open());
    sc.end_empty();
    assert!(!sc.bracket_open());
    assert!(sc.needs_swapchain());
}

#[test]
fn session_ready_begins_and_stopping_ends() {
    let mut session = SessionLifecycle::new();
    assert!(!session.is_running());
    assert!(session.should_idle());

    let action = session.handle_event(&SessionEvent::StateChanged(SessionState::Ready));
    assert_eq!(action, SessionAction::BeginSession);
    assert!(session.is_running());
    assert!(!session.should_idle());

    let action = session.handle_event(&SessionEvent::StateChanged(SessionState::Stopping));
    assert_eq!(action, SessionAction::EndSession);
    assert!(!session.is_running());
}

#[test]
fn terminal_states_exit_the_loop() {
    let mut session = SessionLifecycle::new();
    assert_eq!(
        session.handle_event(&SessionEvent::StateChanged(SessionState::Exiting)),
        SessionAction::ExitLoop
    );
    assert_eq!(
        session.handle_event(&SessionEvent::StateChanged(SessionState::LossPending)),
        SessionAction::ExitLoop
    );
    assert_eq!(session.handle_event(&SessionEvent::InstanceLossPending), SessionAction::ExitLoop);
}

#[test]
fn uninteresting_events_are_ignored() {
    let mut session = SessionLifecycle::new();
    assert_eq!(
        session.handle_event(&SessionEvent::StateChanged(SessionState::Idle)),
        SessionAction::Ignore
    );
    assert_eq!(
        session.handle_event(&SessionEvent::StateChanged(SessionState::Focused)),
        SessionAction::Ignore
    );
    assert_eq!(session.handle_event(&SessionEvent::EventsLost), SessionAction::Ignore);
    assert!(!session.is_running());
}
