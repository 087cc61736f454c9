use screen_capture_kit::error::{CaptureError, CaptureErrorKind};
use screen_capture_kit::geometry::Rect;
use screen_capture_kit::shareable_content::{
    EnumerationRequest, EnumerationScope, ShareableApplication, ShareableContent, ShareableDisplay,
    ShareableWindow,
};

fn display() -> ShareableDisplay {
    ShareableDisplay::new(1, 1920, 1080, Rect::new(0, 0, 1920, 1080))
}

fn app(pid: i32) -> ShareableApplication {
    ShareableApplication::new("com.example.app".to_string(), "Example".to_string(), pid)
}

fn window(id: u32, layer: i64, on_screen: bool) -> ShareableWindow {
    ShareableWindow::new(
        id,
        Rect::new(0, 0, 100, 100),
        Some(format!("window {}", id)),
        layer,
        on_screen,
        false,
        Some(42),
    )
}

#[test]
fn one_display_zero_windows_enumerates_cleanly() {
    let snapshot = ShareableContent::new(vec![display()], Vec::new(), vec![app(7), app(8)]);
    let mut request = EnumerationRequest::new(EnumerationScope::All {
        exclude_desktop_windows: true,
        on_screen_windows_only: true,
    });
    let result = request
        .complete_with_content(snapshot)
        .expect("the first completion is accepted");
    assert_eq!(result.displays().len(), 1);
    assert_eq!(result.displays()[0].display_id, 1);
    assert_eq!(result.windows().len(), 0);
    assert_eq!(result.applications().len(), 2);
}

#[test]
fn desktop_windows_are_excluded_when_asked() {
    let snapshot = ShareableContent::new(
        vec![display()],
        vec![window(1, 0, true), window(2, -20, true), window(3, 0, true)],
        Vec::new(),
    );
    let result = snapshot.excluding_desktop_windows(true, false);
    let ids: Vec<u32> = result.windows().iter().map(|w| w.window_id).collect();
    assert_eq!(ids, vec![1, 3]);
}

#[test]
fn desktop_windows_are_kept_when_not_excluded() {
    let snapshot = ShareableContent::new(
        vec![display()],
        vec![window(1, 0, true), window(2, -20, true)],
        Vec::new(),
    );
    let result = snapshot.excluding_desktop_windows(false, false);
    assert_eq!(result.windows().len(), 2);
}

#[test]
fn off_screen_windows_are_excluded_when_asked() {
    let snapshot = ShareableContent::new(
        vec![display()],
        vec![window(1, 0, true), window(2, 0, false), window(3, 0, true)],
        Vec::new(),
    );
    let result = snapshot.excluding_desktop_windows(false, true);
    let ids: Vec<u32> = result.windows().iter().map(|w| w.window_id).collect();
    assert_eq!(ids, vec![1, 3]);
}

#[test]
fn below_window_keeps_only_later_on_screen_windows() {
    // Snapshot order is front to back: "below" means later in the list.
    let snapshot = ShareableContent::new(
        vec![display()],
        vec![
            window(1, 0, true),
            window(2, 0, true),
            window(3, 0, false),
            window(4, -20, true),
            window(5, 0, true),
        ],
        Vec::new(),
    );
    let result = snapshot.excluding_desktop_windows_below_window(true, 2);
    let ids: Vec<u32> = result.windows().iter().map(|w| w.window_id).collect();
    assert_eq!(ids, vec![5]);
}

#[test]
fn above_window_keeps_only_earlier_on_screen_windows() {
    let snapshot = ShareableContent::new(
        vec![display()],
        vec![window(1, 0, true), window(2, 0, false), window(3, 0, true), window(4, 0, true)],
        Vec::new(),
    );
    let result = snapshot.excluding_desktop_windows_above_window(true, 3);
    let ids: Vec<u32> = result.windows().iter().map(|w| w.window_id).collect();
    assert_eq!(ids, vec![1]);
}

#[test]
fn below_window_uses_first_match_when_ids_repeat() {
    let snapshot = ShareableContent::new(
        vec![display()],
        vec![window(1, 0, true), window(2, 0, true), window(1, 0, true), window(3, 0, true)],
        Vec::new(),
    );
    let result = snapshot.excluding_desktop_windows_below_window(false, 1);
    let ids: Vec<u32> = result.windows().iter().map(|w| w.window_id).collect();
    assert_eq!(ids, vec![2, 1, 3]);
}

#[test]
fn relative_scope_with_absent_window_yields_no_window() {
    let snapshot = ShareableContent::new(
        vec![display()],
        vec![window(1, 0, true), window(2, 0, true)],
        vec![app(7)],
    );
    let result = snapshot.excluding_desktop_windows_below_window(false, 99);
    assert_eq!(result.windows().len(), 0);
    assert_eq!(result.displays().len(), 1);
    assert_eq!(result.applications().len(), 1);
}

#[test]
fn enumeration_completes_exactly_once() {
    let mut request = EnumerationRequest::new(EnumerationScope::All {
        exclude_desktop_windows: false,
        on_screen_windows_only: false,
    });
    let first = ShareableContent::new(vec![display()], Vec::new(), Vec::new());
    request.complete_with_content(first).expect("the first completion is accepted");
    let second = ShareableContent::new(Vec::new(), Vec::new(), Vec::new());
    match request.complete_with_content(second) {
        Err(e) => assert_eq!(e.kind, CaptureErrorKind::InvalidState),
        Ok(_) => panic!("a second completion must be rejected"),
    }
}

#[test]
fn enumeration_error_completion_is_one_shot_too() {
    let mut request = EnumerationRequest::new(EnumerationScope::All {
        exclude_desktop_windows: false,
        on_screen_windows_only: false,
    });
    let denied = CaptureError::with_message(
        CaptureErrorKind::PermissionDenied,
        "screen recording not authorized".to_string(),
    );
    let handed_back = request.complete_with_error(denied).expect("the first completion is accepted");
    assert_eq!(handed_back.kind, CaptureErrorKind::PermissionDenied);
    assert_eq!(handed_back.message(), "screen recording not authorized");
    let snapshot = ShareableContent::new(Vec::new(), Vec::new(), Vec::new());
    match request.complete_with_content(snapshot) {
        Err(e) => assert_eq!(e.kind, CaptureErrorKind::InvalidState),
        Ok(_) => panic!("a result after an error completion must be rejected"),
    }
}

#[test]
fn scoped_request_applies_its_scope() {
    let mut request = EnumerationRequest::new(EnumerationScope::BelowWindow {
        exclude_desktop_windows: false,
        window_id: 1,
    });
    let snapshot = ShareableContent::new(
        vec![display()],
        vec![window(1, 0, true), window(2, 0, true), window(3, 0, false)],
        Vec::new(),
    );
    let result = request.complete_with_content(snapshot).expect("the completion is accepted");
    let ids: Vec<u32> = result.windows().iter().map(|w| w.window_id).collect();
    assert_eq!(ids, vec![2]);
}

#[test]
fn snapshot_accessors_expose_identities() {
    let w = window(9, 3, true);
    assert_eq!(w.title().as_deref(), Some("window 9"));
    assert_eq!(w.owning_application(), Some(42));
    let a = app(55);
    assert_eq!(a.bundle_identifier(), "com.example.app");
    assert_eq!(a.application_name(), "Example");
    assert_eq!(a.process_id(), 55);
}
