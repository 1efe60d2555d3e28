use ceron::frame::{
    AcquireError, Decision, FatalError, FrameController, FrameEvent, FrameState, SkipReason,
};

fn in_state(state: FrameState) -> FrameController {
    FrameController { state, surface_lost: false }
}

#[test]
fn controller_starts_between_two_frames() {
    let c = FrameController::new();
    assert_eq!(c.state, FrameState::Idle);
    assert!(!c.surface_lost);
    assert!(c.is_idle());
}

#[test]
fn frame_runs_through_acquire_record_submit_present() {
    let mut c = FrameController::new();
    assert_eq!(c.advance(FrameEvent::RedrawRequested, true), Decision::Acquire);
    assert_eq!(c.state, FrameState::Acquiring);
    assert!(!c.is_idle());
    assert_eq!(c.advance(FrameEvent::ImageAcquired, true), Decision::Record);
    assert_eq!(c.state, FrameState::Recording);
    assert_eq!(c.advance(FrameEvent::PassRecorded, true), Decision::Submit);
    assert_eq!(c.state, FrameState::Submitted);
    assert_eq!(c.advance(FrameEvent::WorkSubmitted, true), Decision::Present);
    assert_eq!(c.state, FrameState::Presented);
    assert_eq!(c.advance(FrameEvent::ImagePresented, true), Decision::Finish);
    assert_eq!(c, FrameController::new());
}

#[test]
fn redraw_on_a_surface_without_area_is_skipped() {
    let mut c = FrameController::new();
    let d = c.advance(FrameEvent::RedrawRequested, false);
    assert_eq!(d, Decision::Skip { reason: SkipReason::NotPresentable, reconfigure: false });
    assert_eq!(c, FrameController::new());
    assert_eq!(c.advance(FrameEvent::RedrawRequested, true), Decision::Acquire);
}

#[test]
fn timeout_skips_the_frame() {
    let mut c = in_state(FrameState::Acquiring);
    let d = c.advance(FrameEvent::AcquireFailed(AcquireError::Timeout), true);
    assert_eq!(d, Decision::Skip { reason: SkipReason::Timeout, reconfigure: false });
    assert_eq!(c, FrameController::new());
}

#[test]
fn outdated_surface_skips_the_frame_and_is_configured_again() {
    let mut c = in_state(FrameState::Acquiring);
    let d = c.advance(FrameEvent::AcquireFailed(AcquireError::Outdated), true);
    assert_eq!(d, Decision::Skip { reason: SkipReason::Outdated, reconfigure: true });
    assert_eq!(c, FrameController::new());
}

#[test]
fn unspecified_failure_skips_the_frame() {
    let mut c = in_state(FrameState::Acquiring);
    let d = c.advance(FrameEvent::AcquireFailed(AcquireError::Other), true);
    assert_eq!(d, Decision::Skip { reason: SkipReason::Unspecified, reconfigure: false });
    assert_eq!(c, FrameController::new());
}

#[test]
fn out_of_memory_is_fatal() {
    let mut c = in_state(FrameState::Acquiring);
    let d = c.advance(FrameEvent::AcquireFailed(AcquireError::OutOfMemory), true);
    assert_eq!(d, Decision::Fail(FatalError::OutOfMemory));
    assert_eq!(c.state, FrameState::Idle);
}

#[test]
fn surface_lost_once_is_skipped_and_twice_is_fatal() {
    let mut c = FrameController::new();
    assert_eq!(c.advance(FrameEvent::RedrawRequested, true), Decision::Acquire);
    let d = c.advance(FrameEvent::AcquireFailed(AcquireError::Lost), true);
    assert_eq!(d, Decision::Skip { reason: SkipReason::SurfaceLost, reconfigure: true });
    assert_eq!(c, FrameController { state: FrameState::Idle, surface_lost: true });
    assert_eq!(c.advance(FrameEvent::RedrawRequested, true), Decision::Acquire);
    let d = c.advance(FrameEvent::AcquireFailed(AcquireError::Lost), true);
    assert_eq!(d, Decision::Fail(FatalError::SurfaceLost));
    assert_eq!(c.state, FrameState::Idle);
}

#[test]
fn an_image_in_between_forgives_a_lost_surface() {
    let mut c = FrameController { state: FrameState::Acquiring, surface_lost: true };
    assert_eq!(c.advance(FrameEvent::ImageAcquired, true), Decision::Record);
    assert!(!c.surface_lost);
    c.advance(FrameEvent::PassRecorded, true);
    c.advance(FrameEvent::WorkSubmitted, true);
    c.advance(FrameEvent::ImagePresented, true);
    c.advance(FrameEvent::RedrawRequested, true);
    let d = c.advance(FrameEvent::AcquireFailed(AcquireError::Lost), true);
    assert_eq!(d, Decision::Skip { reason: SkipReason::SurfaceLost, reconfigure: true });
}

#[test]
fn a_timeout_in_between_does_not_forgive_a_lost_surface() {
    let mut c = FrameController { state: FrameState::Acquiring, surface_lost: true };
    let d = c.advance(FrameEvent::AcquireFailed(AcquireError::Timeout), true);
    assert_eq!(d, Decision::Skip { reason: SkipReason::Timeout, reconfigure: false });
    assert!(c.surface_lost);
    c.advance(FrameEvent::RedrawRequested, true);
    let d = c.advance(FrameEvent::AcquireFailed(AcquireError::Lost), true);
    assert_eq!(d, Decision::Fail(FatalError::SurfaceLost));
}

#[test]
fn device_lost_is_fatal_in_every_state() {
    let states = [
        FrameState::Idle,
        FrameState::Acquiring,
        FrameState::Recording,
        FrameState::Submitted,
        FrameState::Presented,
    ];
    for state in states {
        let mut c = in_state(state);
        assert_eq!(c.advance(FrameEvent::DeviceLost, true), Decision::Fail(FatalError::DeviceLost));
        assert_eq!(c.state, FrameState::Idle);
    }
}

#[test]
fn events_out_of_turn_are_ignored() {
    let states = [
        FrameState::Idle,
        FrameState::Acquiring,
        FrameState::Recording,
        FrameState::Submitted,
        FrameState::Presented,
    ];
    let events = [
        FrameEvent::RedrawRequested,
        FrameEvent::ImageAcquired,
        FrameEvent::AcquireFailed(AcquireError::Timeout),
        FrameEvent::PassRecorded,
        FrameEvent::WorkSubmitted,
        FrameEvent::ImagePresented,
    ];
    let in_turn = |state: FrameState, event: FrameEvent| {
        matches!(
            (state, event),
            (FrameState::Idle, FrameEvent::RedrawRequested)
                | (FrameState::Acquiring, FrameEvent::ImageAcquired)
                | (FrameState::Acquiring, FrameEvent::AcquireFailed(_))
                | (FrameState::Recording, FrameEvent::PassRecorded)
                | (FrameState::Submitted, FrameEvent::WorkSubmitted)
                | (FrameState::Presented, FrameEvent::ImagePresented)
        )
    };
    for state in states {
        for event in events {
            let mut c = in_state(state);
            let d = c.advance(event, true);
            if in_turn(state, event) {
                assert_ne!(d, Decision::Ignore);
            } else {
                assert_eq!(d, Decision::Ignore);
                assert_eq!(c, in_state(state));
            }
        }
    }
}

#[test]
fn a_redraw_while_a_frame_is_in_flight_starts_no_second_frame() {
    let mut c = FrameController::new();
    c.advance(FrameEvent::RedrawRequested, true);
    assert_eq!(c.advance(FrameEvent::RedrawRequested, true), Decision::Ignore);
    assert_eq!(c.state, FrameState::Acquiring);
}
