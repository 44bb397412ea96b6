use rust_noise::driver::{next_action, DriverAction, DriverEvent};

#[test]
fn first_resume_creates_the_surface() {
    assert_eq!(next_action(false, DriverEvent::Resumed), DriverAction::CreateSurface);
}

#[test]
fn later_resumes_do_nothing() {
    assert_eq!(next_action(true, DriverEvent::Resumed), DriverAction::Nothing);
}

#[test]
fn close_request_leaves_the_loop() {
    assert_eq!(next_action(true, DriverEvent::CloseRequested), DriverAction::Exit);
}

#[test]
fn redraw_request_renders() {
    assert_eq!(
        next_action(true, DriverEvent::RedrawRequested),
        DriverAction::RenderAndPresent
    );
}

#[test]
fn window_events_before_the_surface_exists_are_ignored() {
    assert_eq!(next_action(false, DriverEvent::CloseRequested), DriverAction::Nothing);
    assert_eq!(next_action(false, DriverEvent::RedrawRequested), DriverAction::Nothing);
    assert_eq!(next_action(false, DriverEvent::Other), DriverAction::Nothing);
}

#[test]
fn other_events_are_ignored() {
    assert_eq!(next_action(true, DriverEvent::Other), DriverAction::Nothing);
}
