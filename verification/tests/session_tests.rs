use screen_capture_kit::configuration::StreamConfiguration;
use screen_capture_kit::delivery::OutputKind;
use screen_capture_kit::error::{CaptureError, CaptureErrorKind};
use screen_capture_kit::filter::ContentFilter;
use screen_capture_kit::geometry::Rect;
use screen_capture_kit::session::{CaptureSession, SessionState};
use screen_capture_kit::shareable_content::ShareableDisplay;

fn new_session() -> CaptureSession {
    let display = ShareableDisplay::new(1, 1920, 1080, Rect::new(0, 0, 1920, 1080));
    let filter = ContentFilter::with_display_excluding_windows(&display, &Vec::new());
    CaptureSession::new(filter, StreamConfiguration::new(), 1)
}

fn running_session() -> CaptureSession {
    let mut s = new_session();
    s.start().expect("start from idle is accepted");
    let completed = s.complete_start(None).expect("the first completion is accepted");
    assert!(completed.is_none());
    s
}

fn backend_error() -> CaptureError {
    CaptureError::with_message(CaptureErrorKind::BackendRejected, "unsupported".to_string())
}

#[test]
fn new_session_is_idle_unstarted() {
    let s = new_session();
    assert_eq!(s.state(), SessionState::IdleUnstarted);
    assert!(s.outputs().is_empty());
}

#[test]
fn start_moves_to_running_only_on_successful_completion() {
    let mut s = new_session();
    s.start().expect("start from idle is accepted");
    assert_eq!(s.state(), SessionState::IdleUnstarted);
    s.complete_start(None).expect("the completion is accepted");
    assert_eq!(s.state(), SessionState::Running);
}

#[test]
fn start_failure_keeps_session_idle() {
    let mut s = new_session();
    s.start().expect("start from idle is accepted");
    let outcome = s.complete_start(Some(backend_error())).expect("the completion is accepted");
    assert_eq!(outcome.unwrap().kind, CaptureErrorKind::BackendRejected);
    assert_eq!(s.state(), SessionState::IdleUnstarted);
}

#[test]
fn start_on_running_yields_invalid_state() {
    let mut s = running_session();
    let r = s.start();
    match r {
        Err(e) => assert_eq!(e.kind, CaptureErrorKind::InvalidState),
        Ok(_) => panic!("start while running must fail"),
    }
    assert_eq!(s.state(), SessionState::Running);
}

#[test]
fn stop_on_idle_yields_invalid_state() {
    let mut s = new_session();
    let r = s.stop();
    match r {
        Err(e) => assert_eq!(e.kind, CaptureErrorKind::InvalidState),
        Ok(_) => panic!("stop while idle must fail"),
    }
    assert_eq!(s.state(), SessionState::IdleUnstarted);
}

#[test]
fn stop_completes_to_idle_stopped() {
    let mut s = running_session();
    s.stop().expect("stop while running is accepted");
    assert_eq!(s.state(), SessionState::Running);
    s.complete_stop(None).expect("the completion is accepted");
    assert_eq!(s.state(), SessionState::IdleStopped);
}

#[test]
fn stop_failure_keeps_session_running() {
    let mut s = running_session();
    s.stop().expect("stop while running is accepted");
    s.complete_stop(Some(backend_error())).expect("the completion is accepted");
    assert_eq!(s.state(), SessionState::Running);
}

#[test]
fn session_restarts_after_stop() {
    let mut s = running_session();
    s.stop().expect("stop while running is accepted");
    s.complete_stop(None).expect("the completion is accepted");
    s.start().expect("a stopped session may start again");
    s.complete_start(None).expect("the completion is accepted");
    assert_eq!(s.state(), SessionState::Running);
}

#[test]
fn completion_fires_at_most_once() {
    let mut s = new_session();
    s.start().expect("start from idle is accepted");
    s.complete_start(None).expect("the first completion is accepted");
    let second = s.complete_start(None);
    match second {
        Err(e) => assert_eq!(e.kind, CaptureErrorKind::InvalidState),
        Ok(_) => panic!("a second completion must be rejected"),
    }
}

#[test]
fn completion_without_request_is_rejected() {
    let mut s = new_session();
    let r = s.complete_stop(None);
    match r {
        Err(e) => assert_eq!(e.kind, CaptureErrorKind::InvalidState),
        Ok(_) => panic!("a completion with no request in flight must be rejected"),
    }
}

#[test]
fn start_while_start_pending_is_rejected() {
    let mut s = new_session();
    s.start().expect("start from idle is accepted");
    let r = s.start();
    match r {
        Err(e) => assert_eq!(e.kind, CaptureErrorKind::InvalidState),
        Ok(_) => panic!("a second start while one is in flight must be rejected"),
    }
}

#[test]
fn attach_duplicate_kind_queue_pair_fails() {
    let mut s = new_session();
    s.attach_output(10, OutputKind::Video, 100, None).expect("first attach is accepted");
    let r = s.attach_output(11, OutputKind::Video, 100, None);
    match r {
        Err(e) => assert_eq!(e.kind, CaptureErrorKind::DuplicateOutput),
        Ok(_) => panic!("the same kind-queue pair must be rejected"),
    }
}

#[test]
fn attach_declined_by_backend_registers_nothing() {
    let mut s = new_session();
    let r = s.attach_output(10, OutputKind::Video, 100, Some(backend_error()));
    match r {
        Err(e) => {
            assert_eq!(e.kind, CaptureErrorKind::BackendRejected);
            assert_eq!(e.message(), "unsupported");
        }
        Ok(_) => panic!("a backend declination must surface on the error path"),
    }
    assert!(s.outputs().is_empty());
    // The pair stayed free: a later attempt the backend accepts succeeds.
    s.attach_output(10, OutputKind::Video, 100, None).expect("the pair was never bound");
}

#[test]
fn duplicate_is_detected_before_the_backend_is_consulted() {
    let mut s = new_session();
    s.attach_output(10, OutputKind::Video, 100, None).expect("first attach is accepted");
    // Even with an accepting backend verdict, the duplicate is rejected here.
    let r = s.attach_output(11, OutputKind::Video, 100, None);
    match r {
        Err(e) => assert_eq!(e.kind, CaptureErrorKind::DuplicateOutput),
        Ok(_) => panic!("the duplicate must be rejected locally"),
    }
}

#[test]
fn attach_same_queue_different_kind_is_accepted() {
    let mut s = new_session();
    s.attach_output(10, OutputKind::Video, 100, None).expect("video attach is accepted");
    s.attach_output(10, OutputKind::Audio, 100, None).expect("audio on the same queue is accepted");
    assert_eq!(s.outputs().len(), 2);
}

#[test]
fn reattach_after_detach_succeeds() {
    let mut s = new_session();
    s.attach_output(10, OutputKind::Video, 100, None).expect("first attach is accepted");
    s.detach_output(10, OutputKind::Video).expect("detach of a held registration succeeds");
    s.attach_output(10, OutputKind::Video, 100, None).expect("the pair is free again after detach");
}

#[test]
fn detach_absent_registration_fails_not_found() {
    let mut s = new_session();
    let r = s.detach_output(10, OutputKind::Video);
    match r {
        Err(e) => assert_eq!(e.kind, CaptureErrorKind::NotFound),
        Ok(_) => panic!("detaching an absent registration must fail"),
    }
}

#[test]
fn attach_is_legal_while_running() {
    let mut s = running_session();
    s.attach_output(10, OutputKind::Audio, 200, None).expect("attach while running is accepted");
    assert_eq!(s.outputs().len(), 1);
}

#[test]
fn update_filter_keeps_old_filter_until_success() {
    let display = ShareableDisplay::new(2, 800, 600, Rect::new(0, 0, 800, 600));
    let replacement = ContentFilter::with_display_including_windows(&display, &Vec::new());
    let mut s = running_session();
    s.update_filter(replacement).expect("an update in a non-released state is accepted");
    // Failure: the previous filter remains in effect.
    s.complete_update_filter(Some(backend_error())).expect("the completion is accepted");
    match s.filter().selection {
        screen_capture_kit::filter::FilterSelection::DisplayExcludingWindows { display, .. } => {
            assert_eq!(display, 1)
        }
        _ => panic!("the original filter must remain in effect after a failed update"),
    }
}

#[test]
fn update_filter_installs_new_filter_on_success() {
    let display = ShareableDisplay::new(2, 800, 600, Rect::new(0, 0, 800, 600));
    let replacement = ContentFilter::with_display_including_windows(&display, &Vec::new());
    let mut s = running_session();
    s.update_filter(replacement).expect("an update in a non-released state is accepted");
    s.complete_update_filter(None).expect("the completion is accepted");
    match s.filter().selection {
        screen_capture_kit::filter::FilterSelection::DisplayIncludingWindows { display, .. } => {
            assert_eq!(display, 2)
        }
        _ => panic!("a successful update must install the new filter"),
    }
}

#[test]
fn update_configuration_keeps_old_value_on_failure() {
    let mut s = new_session();
    let mut replacement = StreamConfiguration::new();
    replacement.set_width(640);
    s.update_configuration(replacement).expect("the update is accepted");
    s.complete_update_configuration(Some(backend_error())).expect("the completion is accepted");
    assert_eq!(s.configuration().get_width(), 0);
}

#[test]
fn update_configuration_installs_new_value_on_success() {
    let mut s = new_session();
    let mut replacement = StreamConfiguration::new();
    replacement.set_width(640);
    replacement.set_height(480);
    s.update_configuration(replacement).expect("the update is accepted");
    s.complete_update_configuration(None).expect("the completion is accepted");
    assert_eq!(s.configuration().get_width(), 640);
    assert_eq!(s.configuration().get_height(), 480);
}

#[test]
fn second_update_while_one_pending_is_rejected() {
    let mut s = new_session();
    s.update_configuration(StreamConfiguration::new()).expect("the first update is accepted");
    let r = s.update_configuration(StreamConfiguration::new());
    match r {
        Err(e) => assert_eq!(e.kind, CaptureErrorKind::InvalidState),
        Ok(_) => panic!("two configuration updates cannot be in flight at once"),
    }
}

#[test]
fn stream_failure_while_running_stops_session_and_notifies_delegate() {
    let mut s = running_session();
    let n = s.notify_stream_failure(CaptureError::with_message(
        CaptureErrorKind::StreamFailure,
        "display disconnected".to_string(),
    ));
    let n = n.expect("the failure delegate is notified exactly once");
    assert_eq!(n.delegate, 1);
    assert_eq!(n.error.kind, CaptureErrorKind::StreamFailure);
    assert_eq!(s.state(), SessionState::IdleStopped);
}

#[test]
fn restart_after_stream_failure_is_legal() {
    let mut s = running_session();
    s.notify_stream_failure(CaptureError::new(CaptureErrorKind::StreamFailure));
    assert_eq!(s.state(), SessionState::IdleStopped);
    s.start().expect("a fresh running period may begin after a failure");
    s.complete_start(None).expect("the completion is accepted");
    assert_eq!(s.state(), SessionState::Running);
}

#[test]
fn stream_failure_while_idle_is_ignored() {
    let mut s = new_session();
    let n = s.notify_stream_failure(CaptureError::new(CaptureErrorKind::StreamFailure));
    assert!(n.is_none());
    assert_eq!(s.state(), SessionState::IdleUnstarted);
}

#[test]
fn release_tears_down_registrations() {
    let mut s = new_session();
    s.attach_output(10, OutputKind::Video, 100, None).expect("attach is accepted");
    s.release().expect("release from any non-released state succeeds");
    assert_eq!(s.state(), SessionState::Released);
    assert!(s.outputs().is_empty());
}

#[test]
fn every_operation_after_release_fails_use_after_release() {
    let mut s = running_session();
    s.release().expect("release while running succeeds");
    let kind = |r: Result<(), CaptureError>| match r {
        Err(e) => e.kind,
        Ok(_) => panic!("an operation after release must fail"),
    };
    assert_eq!(kind(s.start()), CaptureErrorKind::UseAfterRelease);
    assert_eq!(kind(s.stop()), CaptureErrorKind::UseAfterRelease);
    assert_eq!(kind(s.attach_output(10, OutputKind::Video, 100, None)), CaptureErrorKind::UseAfterRelease);
    assert_eq!(kind(s.detach_output(10, OutputKind::Video)), CaptureErrorKind::UseAfterRelease);
    let display = ShareableDisplay::new(1, 1, 1, Rect::zero());
    let f = ContentFilter::with_display_excluding_windows(&display, &Vec::new());
    assert_eq!(kind(s.update_filter(f)), CaptureErrorKind::UseAfterRelease);
    assert_eq!(kind(s.update_configuration(StreamConfiguration::new())), CaptureErrorKind::UseAfterRelease);
    match s.complete_start(None) {
        Err(e) => assert_eq!(e.kind, CaptureErrorKind::UseAfterRelease),
        Ok(_) => panic!("a completion after release must fail"),
    }
    assert_eq!(kind(s.release()), CaptureErrorKind::UseAfterRelease);
    assert_eq!(s.state(), SessionState::Released);
}

#[test]
fn release_drops_inflight_start() {
    let mut s = new_session();
    s.start().expect("start from idle is accepted");
    s.release().expect("release succeeds");
    match s.complete_start(None) {
        Err(e) => assert_eq!(e.kind, CaptureErrorKind::UseAfterRelease),
        Ok(_) => panic!("the dropped completion must be rejected"),
    }
    assert_eq!(s.state(), SessionState::Released);
}
