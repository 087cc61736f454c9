use screen_capture_kit::error::CaptureErrorKind;
use screen_capture_kit::filter::{ContentFilter, FilterBuilder, FilterSelection};
use screen_capture_kit::geometry::Rect;
use screen_capture_kit::shareable_content::{ShareableApplication, ShareableDisplay, ShareableWindow};

fn display() -> ShareableDisplay {
    ShareableDisplay::new(1, 1920, 1080, Rect::new(0, 0, 1920, 1080))
}

fn window(id: u32) -> ShareableWindow {
    ShareableWindow::new(id, Rect::new(0, 0, 100, 100), None, 0, true, true, None)
}

fn application(pid: i32) -> ShareableApplication {
    ShareableApplication::new("com.example.app".to_string(), "Example".to_string(), pid)
}

#[test]
fn desktop_independent_window_mode() {
    let f = ContentFilter::with_desktop_independent_window(&window(42));
    match f.selection {
        FilterSelection::DesktopIndependentWindow { window } => assert_eq!(window, 42),
        _ => panic!("wrong selection mode"),
    }
}

#[test]
fn display_excluding_windows_mode() {
    let excluded = vec![window(5), window(9)];
    let f = ContentFilter::with_display_excluding_windows(&display(), &excluded);
    match f.selection {
        FilterSelection::DisplayExcludingWindows { display, ref windows } => {
            assert_eq!(display, 1);
            assert_eq!(windows, &vec![5, 9]);
        }
        _ => panic!("wrong selection mode"),
    }
}

#[test]
fn display_excluding_empty_window_set() {
    let f = ContentFilter::with_display_excluding_windows(&display(), &Vec::new());
    match f.selection {
        FilterSelection::DisplayExcludingWindows { display, ref windows } => {
            assert_eq!(display, 1);
            assert!(windows.is_empty());
        }
        _ => panic!("wrong selection mode"),
    }
}

#[test]
fn display_including_windows_mode() {
    let included = vec![window(3)];
    let f = ContentFilter::with_display_including_windows(&display(), &included);
    match f.selection {
        FilterSelection::DisplayIncludingWindows { display, ref windows } => {
            assert_eq!(display, 1);
            assert_eq!(windows, &vec![3]);
        }
        _ => panic!("wrong selection mode"),
    }
}

#[test]
fn display_excluding_applications_mode() {
    let apps = vec![application(100), application(200)];
    let excepted = vec![window(7)];
    let f = ContentFilter::with_display_excluding_applications(&display(), &apps, &excepted);
    match f.selection {
        FilterSelection::DisplayExcludingApplications { display, ref applications, ref excepting_windows } => {
            assert_eq!(display, 1);
            assert_eq!(applications, &vec![100, 200]);
            assert_eq!(excepting_windows, &vec![7]);
        }
        _ => panic!("wrong selection mode"),
    }
}

#[test]
fn display_including_applications_mode() {
    let apps = vec![application(300)];
    let f = ContentFilter::with_display_including_applications(&display(), &apps, &Vec::new());
    match f.selection {
        FilterSelection::DisplayIncludingApplications { display, ref applications, ref excepting_windows } => {
            assert_eq!(display, 1);
            assert_eq!(applications, &vec![300]);
            assert!(excepting_windows.is_empty());
        }
        _ => panic!("wrong selection mode"),
    }
}

#[test]
fn builder_rejects_two_modes() {
    let mut b = FilterBuilder::new();
    b.display = Some(1);
    b.exclude_windows = Some(vec![5]);
    b.include_windows = Some(vec![6]);
    let r = b.build();
    match r {
        Err(e) => assert_eq!(e.kind, CaptureErrorKind::InvalidState),
        Ok(_) => panic!("two modes must be rejected, not merged"),
    }
}

#[test]
fn builder_rejects_window_and_application_mode_mix() {
    let mut b = FilterBuilder::new();
    b.desktop_independent_window = Some(9);
    b.include_applications = Some(vec![100]);
    assert!(b.build().is_err());
}

#[test]
fn builder_rejects_no_mode() {
    let mut b = FilterBuilder::new();
    b.display = Some(1);
    let r = b.build();
    match r {
        Err(e) => assert_eq!(e.kind, CaptureErrorKind::InvalidState),
        Ok(_) => panic!("a request naming no mode must be rejected"),
    }
}

#[test]
fn builder_rejects_display_mode_without_display() {
    let mut b = FilterBuilder::new();
    b.exclude_windows = Some(vec![5]);
    let r = b.build();
    match r {
        Err(e) => assert_eq!(e.kind, CaptureErrorKind::InvalidState),
        Ok(_) => panic!("a display mode without a display must be rejected"),
    }
}

#[test]
fn builder_accepts_exactly_one_mode() {
    let mut b = FilterBuilder::new();
    b.display = Some(2);
    b.exclude_windows = Some(vec![8]);
    let f = b.build().expect("one mode with a display is accepted");
    match f.selection {
        FilterSelection::DisplayExcludingWindows { display, ref windows } => {
            assert_eq!(display, 2);
            assert_eq!(windows, &vec![8]);
        }
        _ => panic!("wrong selection mode"),
    }
}

#[test]
fn builder_accepts_desktop_independent_window_without_display() {
    let mut b = FilterBuilder::new();
    b.desktop_independent_window = Some(77);
    let f = b.build().expect("the window mode needs no display");
    match f.selection {
        FilterSelection::DesktopIndependentWindow { window } => assert_eq!(window, 77),
        _ => panic!("wrong selection mode"),
    }
}

#[test]
fn builder_application_mode_carries_excepted_windows() {
    let mut b = FilterBuilder::new();
    b.display = Some(1);
    b.exclude_applications = Some(vec![500]);
    b.excepting_windows = vec![11, 12];
    let f = b.build().expect("one application mode is accepted");
    match f.selection {
        FilterSelection::DisplayExcludingApplications { display, ref applications, ref excepting_windows } => {
            assert_eq!(display, 1);
            assert_eq!(applications, &vec![500]);
            assert_eq!(excepting_windows, &vec![11, 12]);
        }
        _ => panic!("wrong selection mode"),
    }
}
