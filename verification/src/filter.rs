//! Content filters: an immutable rule selecting which shareable content a
//! capture session records.
//!
//! A filter combines one capture target (a display or a single window) with
//! exactly one selection mode: exclude windows, include windows, exclude
//! applications, or include applications (the application modes carry a
//! list of excepted windows). The five factories each fix one mode; a
//! [`FilterBuilder`] lets a caller assemble a request field by field, and
//! its `build` rejects a request naming no mode or several — modes are
//! never merged silently.

use vstd::prelude::*;

use crate::error::{CaptureError, CaptureErrorKind};
use crate::shareable_content::{ShareableApplication, ShareableDisplay, ShareableWindow};

verus! {

/// The selection rule of a constructed filter. Windows are identified by
/// window id, applications by process id.
#[derive(Debug)]
pub enum FilterSelection {
    /// A single window, captured independently of desktop state.
    DesktopIndependentWindow { window: u32 },
    /// Everything on a display except the listed windows.
    DisplayExcludingWindows { display: u32, windows: Vec<u32> },
    /// Only the listed windows of a display.
    DisplayIncludingWindows { display: u32, windows: Vec<u32> },
    /// Everything on a display except the listed applications' windows,
    /// keeping the excepted windows.
    DisplayExcludingApplications { display: u32, applications: Vec<i32>, excepting_windows: Vec<u32> },
    /// Only the listed applications' windows on a display, plus the
    /// excepted windows.
    DisplayIncludingApplications { display: u32, applications: Vec<i32>, excepting_windows: Vec<u32> },
}

/// An immutable content filter: one target, one selection mode.
#[derive(Debug)]
pub struct ContentFilter {
    pub selection: FilterSelection,
}

/// How many of the five selection modes a selection value holds: one by
/// construction, which [`lemma_filter_mode_exclusive`] states as a law.
pub open spec fn active_mode_count(s: FilterSelection) -> int {
    (if s is DesktopIndependentWindow { 1int } else { 0int })
    + (if s is DisplayExcludingWindows { 1int } else { 0int })
    + (if s is DisplayIncludingWindows { 1int } else { 0int })
    + (if s is DisplayExcludingApplications { 1int } else { 0int })
    + (if s is DisplayIncludingApplications { 1int } else { 0int })
}

/// Law: every constructed `ContentFilter` has exactly one active selection
/// mode — the modes are mutually exclusive and one is always present.
pub proof fn lemma_filter_mode_exclusive(f: ContentFilter)
    ensures
        active_mode_count(f.selection) == 1,
{
}

/// The window ids of a window snapshot sequence, in order.
pub open spec fn window_ids(s: Seq<ShareableWindow>) -> Seq<u32> {
    s.map_values(|w: ShareableWindow| w.window_id)
}

/// The process ids of an application snapshot sequence, in order.
pub open spec fn process_ids(s: Seq<ShareableApplication>) -> Seq<i32> {
    s.map_values(|a: ShareableApplication| a.process_id)
}

/// Copies the window ids out of a snapshot list.
fn collect_window_ids(windows: &Vec<ShareableWindow>) -> (r: Vec<u32>)
    ensures
        r@ == window_ids(windows@),
{
    let mut ids: Vec<u32> = Vec::new();
    let mut i: usize = 0;
    while i < windows.len()
        invariant
            i <= windows.len(),
            ids@ == window_ids(windows@.take(i as int)),
        decreases windows.len() - i,
    {
        ids.push(windows[i].window_id);
        proof {
            assert(windows@.take(i as int + 1).map_values(|w: ShareableWindow| w.window_id)
                =~= windows@.take(i as int).map_values(|w: ShareableWindow| w.window_id).push(
                windows@[i as int].window_id));
        }
        i = i + 1;
    }
    proof {
        assert(windows@.take(windows@.len() as int) =~= windows@);
    }
    ids
}

/// Copies the process ids out of a snapshot list.
fn collect_process_ids(applications: &Vec<ShareableApplication>) -> (r: Vec<i32>)
    ensures
        r@ == process_ids(applications@),
{
    let mut ids: Vec<i32> = Vec::new();
    let mut i: usize = 0;
    while i < applications.len()
        invariant
            i <= applications.len(),
            ids@ == process_ids(applications@.take(i as int)),
        decreases applications.len() - i,
    {
        ids.push(applications[i].process_id);
        proof {
            assert(applications@.take(i as int + 1).map_values(|a: ShareableApplication| a.process_id)
                =~= applications@.take(i as int).map_values(|a: ShareableApplication| a.process_id).push(
                applications@[i as int].process_id));
        }
        i = i + 1;
    }
    proof {
        assert(applications@.take(applications@.len() as int) =~= applications@);
    }
    ids
}

impl ContentFilter {
    /// A filter capturing a single window, independent of desktop state.
    pub fn with_desktop_independent_window(window: &ShareableWindow) -> (r: ContentFilter)
        ensures
            r.selection == (FilterSelection::DesktopIndependentWindow { window: window.window_id }),
    {
        ContentFilter { selection: FilterSelection::DesktopIndependentWindow { window: window.window_id } }
    }

    /// A filter capturing a display, excluding the given windows.
    pub fn with_display_excluding_windows(display: &ShareableDisplay, excluded: &Vec<ShareableWindow>)
        -> (r: ContentFilter)
        ensures
            r.selection matches FilterSelection::DisplayExcludingWindows { display: d, windows: ws }
                && d == display.display_id && ws@ == window_ids(excluded@),
    {
        let ids = collect_window_ids(excluded);
        ContentFilter {
            selection: FilterSelection::DisplayExcludingWindows { display: display.display_id, windows: ids },
        }
    }

    /// A filter capturing only the given windows of a display.
    pub fn with_display_including_windows(display: &ShareableDisplay, included: &Vec<ShareableWindow>)
        -> (r: ContentFilter)
        ensures
            r.selection matches FilterSelection::DisplayIncludingWindows { display: d, windows: ws }
                && d == display.display_id && ws@ == window_ids(included@),
    {
        let ids = collect_window_ids(included);
        ContentFilter {
            selection: FilterSelection::DisplayIncludingWindows { display: display.display_id, windows: ids },
        }
    }

    /// A filter capturing a display, excluding the given applications but
    /// keeping the excepted windows.
    pub fn with_display_excluding_applications(
        display: &ShareableDisplay,
        applications: &Vec<ShareableApplication>,
        excepting_windows: &Vec<ShareableWindow>,
    ) -> (r: ContentFilter)
        ensures
            r.selection matches FilterSelection::DisplayExcludingApplications {
                display: d,
                applications: apps,
                excepting_windows: excepted,
            } && d == display.display_id && apps@ == process_ids(applications@)
                && excepted@ == window_ids(excepting_windows@),
    {
        let apps = collect_process_ids(applications);
        let excepted = collect_window_ids(excepting_windows);
        ContentFilter {
            selection: FilterSelection::DisplayExcludingApplications {
                display: display.display_id,
                applications: apps,
                excepting_windows: excepted,
            },
        }
    }

    /// A filter capturing only the given applications' windows on a
    /// display, plus the excepted windows.
    pub fn with_display_including_applications(
        display: &ShareableDisplay,
        applications: &Vec<ShareableApplication>,
        excepting_windows: &Vec<ShareableWindow>,
    ) -> (r: ContentFilter)
        ensures
            r.selection matches FilterSelection::DisplayIncludingApplications {
                display: d,
                applications: apps,
                excepting_windows: excepted,
            } && d == display.display_id && apps@ == process_ids(applications@)
                && excepted@ == window_ids(excepting_windows@),
    {
        let apps = collect_process_ids(applications);
        let excepted = collect_window_ids(excepting_windows);
        ContentFilter {
            selection: FilterSelection::DisplayIncludingApplications {
                display: display.display_id,
                applications: apps,
                excepting_windows: excepted,
            },
        }
    }
}

/// A filter construction request assembled field by field. Exactly one of
/// the five mode fields must be set when [`FilterBuilder::build`] is
/// called, and the display modes also need a display; `excepting_windows`
/// is read only by the two application modes.
#[derive(Debug)]
pub struct FilterBuilder {
    pub desktop_independent_window: Option<u32>,
    pub display: Option<u32>,
    pub exclude_windows: Option<Vec<u32>>,
    pub include_windows: Option<Vec<u32>>,
    pub exclude_applications: Option<Vec<i32>>,
    pub include_applications: Option<Vec<i32>>,
    pub excepting_windows: Vec<u32>,
}

/// How many selection modes a request names.
pub open spec fn requested_mode_count(b: FilterBuilder) -> int {
    (if b.desktop_independent_window is Some { 1int } else { 0int })
    + (if b.exclude_windows is Some { 1int } else { 0int })
    + (if b.include_windows is Some { 1int } else { 0int })
    + (if b.exclude_applications is Some { 1int } else { 0int })
    + (if b.include_applications is Some { 1int } else { 0int })
}

/// A request is accepted exactly when it names one mode, and a display
/// wherever the mode needs one.
pub open spec fn build_accepted(b: FilterBuilder) -> bool {
    requested_mode_count(b) == 1
    && (b.desktop_independent_window is Some || b.display is Some)
}

/// The selection an accepted request builds.
pub open spec fn built_selection(b: FilterBuilder) -> FilterSelection {
    if b.desktop_independent_window is Some {
        FilterSelection::DesktopIndependentWindow { window: b.desktop_independent_window->Some_0 }
    } else if b.exclude_windows is Some {
        FilterSelection::DisplayExcludingWindows {
            display: b.display->Some_0,
            windows: b.exclude_windows->Some_0,
        }
    } else if b.include_windows is Some {
        FilterSelection::DisplayIncludingWindows {
            display: b.display->Some_0,
            windows: b.include_windows->Some_0,
        }
    } else if b.exclude_applications is Some {
        FilterSelection::DisplayExcludingApplications {
            display: b.display->Some_0,
            applications: b.exclude_applications->Some_0,
            excepting_windows: b.excepting_windows,
        }
    } else {
        FilterSelection::DisplayIncludingApplications {
            display: b.display->Some_0,
            applications: b.include_applications->Some_0,
            excepting_windows: b.excepting_windows,
        }
    }
}

impl FilterBuilder {
    /// An empty request: no target, no mode.
    pub fn new() -> (r: FilterBuilder)
        ensures
            r.desktop_independent_window is None,
            r.display is None,
            r.exclude_windows is None,
            r.include_windows is None,
            r.exclude_applications is None,
            r.include_applications is None,
            r.excepting_windows@ == Seq::<u32>::empty(),
    {
        FilterBuilder {
            desktop_independent_window: None,
            display: None,
            exclude_windows: None,
            include_windows: None,
            exclude_applications: None,
            include_applications: None,
            excepting_windows: Vec::new(),
        }
    }

    /// Builds the filter, or rejects the request: a request naming no
    /// mode, several modes, or a display mode without a display is a
    /// caller error, reported synchronously and never merged.
    pub fn build(self) -> (r: Result<ContentFilter, CaptureError>)
        ensures
            build_accepted(self) ==> (r matches Ok(f) && f.selection == built_selection(self)),
            !build_accepted(self) ==> (r matches Err(e) && e.kind == CaptureErrorKind::InvalidState),
    {
        let modes: u32 = (if self.desktop_independent_window.is_some() { 1u32 } else { 0u32 })
            + (if self.exclude_windows.is_some() { 1u32 } else { 0u32 })
            + (if self.include_windows.is_some() { 1u32 } else { 0u32 })
            + (if self.exclude_applications.is_some() { 1u32 } else { 0u32 })
            + (if self.include_applications.is_some() { 1u32 } else { 0u32 });
        if modes != 1 {
            return Err(CaptureError::new(CaptureErrorKind::InvalidState));
        }
        if let Some(window) = self.desktop_independent_window {
            return Ok(ContentFilter { selection: FilterSelection::DesktopIndependentWindow { window } });
        }
        let display: u32 = match self.display {
            Some(d) => d,
            None => {
                return Err(CaptureError::new(CaptureErrorKind::InvalidState));
            },
        };
        if let Some(windows) = self.exclude_windows {
            return Ok(ContentFilter {
                selection: FilterSelection::DisplayExcludingWindows { display, windows },
            });
        }
        if let Some(windows) = self.include_windows {
            return Ok(ContentFilter {
                selection: FilterSelection::DisplayIncludingWindows { display, windows },
            });
        }
        if let Some(applications) = self.exclude_applications {
            return Ok(ContentFilter {
                selection: FilterSelection::DisplayExcludingApplications {
                    display,
                    applications,
                    excepting_windows: self.excepting_windows,
                },
            });
        }
        if let Some(applications) = self.include_applications {
            return Ok(ContentFilter {
                selection: FilterSelection::DisplayIncludingApplications {
                    display,
                    applications,
                    excepting_windows: self.excepting_windows,
                },
            });
        }
        proof {
            assert(false);
        }
        Err(CaptureError::new(CaptureErrorKind::InvalidState))
    }
}

/// Law: a request naming two or more selection modes is rejected at
/// construction; nothing is merged.
pub proof fn lemma_build_rejects_mixed_modes(b: FilterBuilder)
    requires
        requested_mode_count(b) >= 2,
    ensures
        !build_accepted(b),
{
}

/// Law: a request naming exactly one selection mode, with a display
/// wherever the mode needs one, is accepted.
pub proof fn lemma_build_accepts_single_mode(b: FilterBuilder)
    requires
        requested_mode_count(b) == 1,
        b.desktop_independent_window is Some || b.display is Some,
    ensures
        build_accepted(b),
{
}

} // verus!
