//! Shareable-content snapshots: the displays, windows, and running
//! applications eligible for capture at a point in time, and the directory
//! logic that assembles an enumeration result from such a snapshot.
//!
//! A snapshot is immutable data handed over by the backend; windows appear
//! in the backend's enumeration order, front to back. Desktop windows (the
//! wallpaper and icon layers) sit at negative window layers; ordinary
//! windows sit at layer zero and above.

use vstd::prelude::*;

use crate::error::{CaptureError, CaptureErrorKind};
use crate::geometry::Rect;

verus! {

/// One capturable display: identity, pixel dimensions, bounding frame.
#[derive(Clone, Copy, PartialEq, Eq, Structural, Debug)]
pub struct ShareableDisplay {
    pub display_id: u32,
    pub width: i64,
    pub height: i64,
    pub frame: Rect,
}

impl ShareableDisplay {
    /// A display snapshot with the given identity and geometry.
    pub fn new(display_id: u32, width: i64, height: i64, frame: Rect) -> (r: ShareableDisplay)
        ensures
            r == (ShareableDisplay { display_id, width, height, frame }),
    {
        ShareableDisplay { display_id, width, height, frame }
    }

    /// The platform display id.
    pub fn display_id(&self) -> (r: u32)
        ensures
            r == self.display_id,
    {
        self.display_id
    }

    /// The display's width in pixels.
    pub fn width(&self) -> (r: i64)
        ensures
            r == self.width,
    {
        self.width
    }

    /// The display's height in pixels.
    pub fn height(&self) -> (r: i64)
        ensures
            r == self.height,
    {
        self.height
    }

    /// The display's bounding frame.
    pub fn frame(&self) -> (r: Rect)
        ensures
            r == self.frame,
    {
        self.frame
    }
}

/// One capturable window: identity, geometry, title, layer, state flags,
/// and the process id of the owning application, where one is known.
#[derive(Debug)]
pub struct ShareableWindow {
    pub window_id: u32,
    pub frame: Rect,
    pub title: Option<String>,
    pub window_layer: i64,
    pub on_screen: bool,
    pub active: bool,
    pub owning_process_id: Option<i32>,
}

impl ShareableWindow {
    /// A window snapshot with the given attributes.
    pub fn new(
        window_id: u32,
        frame: Rect,
        title: Option<String>,
        window_layer: i64,
        on_screen: bool,
        active: bool,
        owning_process_id: Option<i32>,
    ) -> (r: ShareableWindow)
        ensures
            r == (ShareableWindow {
                window_id,
                frame,
                title,
                window_layer,
                on_screen,
                active,
                owning_process_id,
            }),
    {
        ShareableWindow { window_id, frame, title, window_layer, on_screen, active, owning_process_id }
    }

    /// The platform window id.
    pub fn window_id(&self) -> (r: u32)
        ensures
            r == self.window_id,
    {
        self.window_id
    }

    /// The window's bounding frame.
    pub fn frame(&self) -> (r: Rect)
        ensures
            r == self.frame,
    {
        self.frame
    }

    /// The window's title, where the window server reports one.
    pub fn title(&self) -> (t: &Option<String>)
        ensures
            t == &self.title,
    {
        &self.title
    }

    /// The window's layer index.
    pub fn window_layer(&self) -> (r: i64)
        ensures
            r == self.window_layer,
    {
        self.window_layer
    }

    /// Whether the window is on screen.
    pub fn on_screen(&self) -> (r: bool)
        ensures
            r == self.on_screen,
    {
        self.on_screen
    }

    /// Whether the window is active.
    pub fn active(&self) -> (r: bool)
        ensures
            r == self.active,
    {
        self.active
    }

    /// The process id of the owning application, for lookup only.
    pub fn owning_application(&self) -> (r: Option<i32>)
        ensures
            r == self.owning_process_id,
    {
        self.owning_process_id
    }
}

/// One running application: bundle identifier, display name, process id.
/// Its identity is the process id.
#[derive(Debug)]
pub struct ShareableApplication {
    pub bundle_identifier: String,
    pub application_name: String,
    pub process_id: i32,
}

impl ShareableApplication {
    /// An application snapshot with the given identity.
    pub fn new(bundle_identifier: String, application_name: String, process_id: i32) -> (r:
        ShareableApplication)
        ensures
            r == (ShareableApplication { bundle_identifier, application_name, process_id }),
    {
        ShareableApplication { bundle_identifier, application_name, process_id }
    }

    /// The application's bundle identifier.
    pub fn bundle_identifier(&self) -> (r: &String)
        ensures
            r == &self.bundle_identifier,
    {
        &self.bundle_identifier
    }

    /// The application's display name.
    pub fn application_name(&self) -> (r: &String)
        ensures
            r == &self.application_name,
    {
        &self.application_name
    }

    /// The application's process id.
    pub fn process_id(&self) -> (r: i32)
        ensures
            r == self.process_id,
    {
        self.process_id
    }
}

/// An enumeration result set: the shareable displays, windows, and
/// applications, in backend enumeration order.
#[derive(Debug)]
pub struct ShareableContent {
    pub displays: Vec<ShareableDisplay>,
    pub windows: Vec<ShareableWindow>,
    pub applications: Vec<ShareableApplication>,
}

impl ShareableContent {
    /// A result set holding the given collections.
    pub fn new(
        displays: Vec<ShareableDisplay>,
        windows: Vec<ShareableWindow>,
        applications: Vec<ShareableApplication>,
    ) -> (r: ShareableContent)
        ensures
            r == (ShareableContent { displays, windows, applications }),
    {
        ShareableContent { displays, windows, applications }
    }

    /// The capturable displays.
    pub fn displays(&self) -> (r: &Vec<ShareableDisplay>)
        ensures
            r == &self.displays,
    {
        &self.displays
    }

    /// The capturable windows, front to back.
    pub fn windows(&self) -> (r: &Vec<ShareableWindow>)
        ensures
            r == &self.windows,
    {
        &self.windows
    }

    /// The running applications.
    pub fn applications(&self) -> (r: &Vec<ShareableApplication>)
        ensures
            r == &self.applications,
    {
        &self.applications
    }
}

/// Whether a window belongs to the desktop itself — the wallpaper and
/// icon layers sit at negative window layers; ordinary windows sit at
/// layer zero and above.
pub open spec fn is_desktop_window(w: ShareableWindow) -> bool {
    w.window_layer < 0
}

/// Whether an enumeration with the two option flags admits a window.
pub open spec fn window_admitted(
    w: ShareableWindow,
    exclude_desktop_windows: bool,
    on_screen_windows_only: bool,
) -> bool {
    (!exclude_desktop_windows || !is_desktop_window(w)) && (!on_screen_windows_only || w.on_screen)
}

/// The admitted windows of a snapshot, in snapshot order.
pub open spec fn admitted_windows(
    s: Seq<ShareableWindow>,
    exclude_desktop_windows: bool,
    on_screen_windows_only: bool,
) -> Seq<ShareableWindow>
    decreases s.len(),
{
    if s.len() == 0 {
        Seq::empty()
    } else {
        let rest = admitted_windows(s.drop_last(), exclude_desktop_windows, on_screen_windows_only);
        if window_admitted(s.last(), exclude_desktop_windows, on_screen_windows_only) {
            rest.push(s.last())
        } else {
            rest
        }
    }
}

/// The position of the first window with the given id, or `-1` when the
/// snapshot holds none.
pub open spec fn window_index(s: Seq<ShareableWindow>, id: u32) -> int
    decreases s.len(),
{
    if s.len() == 0 {
        -1
    } else if s[0].window_id == id {
        0
    } else {
        let rest = window_index(s.drop_first(), id);
        if rest < 0 {
            -1
        } else {
            rest + 1
        }
    }
}

/// The result windows of an enumeration restricted to on-screen windows
/// strictly below the named window in the snapshot's front-to-back
/// order; empty when the named window is absent.
pub open spec fn windows_below(
    s: Seq<ShareableWindow>,
    exclude_desktop_windows: bool,
    id: u32,
) -> Seq<ShareableWindow> {
    let t = window_index(s, id);
    if t < 0 {
        Seq::empty()
    } else {
        admitted_windows(s.skip(t + 1), exclude_desktop_windows, true)
    }
}

/// The result windows of an enumeration restricted to on-screen windows
/// strictly above the named window; empty when the named window is
/// absent.
pub open spec fn windows_above(
    s: Seq<ShareableWindow>,
    exclude_desktop_windows: bool,
    id: u32,
) -> Seq<ShareableWindow> {
    let t = window_index(s, id);
    if t < 0 {
        Seq::empty()
    } else {
        admitted_windows(s.take(t), exclude_desktop_windows, true)
    }
}

/// The enumeration result reports exactly the windows the options
/// admit: every reported window is admitted, and every admitted window
/// of the snapshot is reported.
pub proof fn lemma_admitted_windows_membership(
    s: Seq<ShareableWindow>,
    exclude_desktop_windows: bool,
    on_screen_windows_only: bool,
)
    ensures
        forall|i: int|
            0 <= i < admitted_windows(s, exclude_desktop_windows, on_screen_windows_only).len()
                ==> window_admitted(
                #[trigger] admitted_windows(s, exclude_desktop_windows, on_screen_windows_only)[i],
                exclude_desktop_windows,
                on_screen_windows_only,
            ),
        forall|w: ShareableWindow|
            #[trigger] admitted_windows(s, exclude_desktop_windows, on_screen_windows_only)
                .contains(w) <==> (s.contains(w) && window_admitted(
                w,
                exclude_desktop_windows,
                on_screen_windows_only,
            )),
    decreases s.len(),
{
    let out = admitted_windows(s, exclude_desktop_windows, on_screen_windows_only);
    if s.len() == 0 {
    } else {
        let prefix = s.drop_last();
        let last = s.last();
        let rest = admitted_windows(prefix, exclude_desktop_windows, on_screen_windows_only);
        lemma_admitted_windows_membership(prefix, exclude_desktop_windows, on_screen_windows_only);
        assert forall|w: ShareableWindow| #[trigger] out.contains(w) implies (s.contains(w)
            && window_admitted(w, exclude_desktop_windows, on_screen_windows_only)) by {
            let i = choose|i: int| 0 <= i < out.len() && out[i] == w;
            if window_admitted(last, exclude_desktop_windows, on_screen_windows_only) && i
                == out.len() - 1 {
                assert(w == last);
                assert(s[s.len() - 1] == w);
            } else {
                assert(rest[i] == w);
                assert(rest.contains(w));
                let j = choose|j: int| 0 <= j < prefix.len() && prefix[j] == w;
                assert(s[j] == w);
            }
        }
        assert forall|w: ShareableWindow| s.contains(w) && window_admitted(
            w,
            exclude_desktop_windows,
            on_screen_windows_only,
        ) implies #[trigger] out.contains(w) by {
            let i = choose|i: int| 0 <= i < s.len() && s[i] == w;
            if i < s.len() - 1 {
                assert(prefix[i] == w);
                assert(prefix.contains(w));
                assert(rest.contains(w));
                let j = choose|j: int| 0 <= j < rest.len() && rest[j] == w;
                if window_admitted(last, exclude_desktop_windows, on_screen_windows_only) {
                    assert(out[j] == w);
                }
            } else {
                assert(w == last);
                assert(out[out.len() - 1] == w);
            }
        }
    }
}

/// A snapshot with no window of the given id indexes to `-1`.
proof fn lemma_window_index_none(s: Seq<ShareableWindow>, id: u32)
    requires
        forall|j: int| 0 <= j < s.len() ==> (#[trigger] s[j]).window_id != id,
    ensures
        window_index(s, id) == -1,
    decreases s.len(),
{
    if s.len() == 0 {
    } else {
        assert(s[0].window_id != id);
        assert forall|j: int| 0 <= j < s.drop_first().len() implies (
        #[trigger] s.drop_first()[j]).window_id != id by {
            assert(s.drop_first()[j] == s[j + 1]);
        }
        lemma_window_index_none(s.drop_first(), id);
    }
}

/// The first match determines the window index.
proof fn lemma_window_index_first(s: Seq<ShareableWindow>, id: u32, i: int)
    requires
        0 <= i < s.len(),
        s[i].window_id == id,
        forall|j: int| 0 <= j < i ==> (#[trigger] s[j]).window_id != id,
    ensures
        window_index(s, id) == i,
    decreases s.len(),
{
    if i == 0 {
    } else {
        assert(s[0].window_id != id);
        assert(s.drop_first()[i - 1] == s[i]);
        assert forall|j: int| 0 <= j < i - 1 implies (#[trigger] s.drop_first()[j]).window_id
            != id by {
            assert(s.drop_first()[j] == s[j + 1]);
        }
        lemma_window_index_first(s.drop_first(), id, i - 1);
    }
}

/// Keeps exactly the windows the two option flags admit, in order.
fn filter_windows(
    windows: Vec<ShareableWindow>,
    exclude_desktop_windows: bool,
    on_screen_windows_only: bool,
) -> (r: Vec<ShareableWindow>)
    ensures
        r@ == admitted_windows(windows@, exclude_desktop_windows, on_screen_windows_only),
{
    let ghost orig = windows@;
    let mut remaining = windows;
    let mut kept: Vec<ShareableWindow> = Vec::new();
    let ghost mut k: int = 0;
    while remaining.len() > 0
        invariant
            0 <= k <= orig.len(),
            remaining@ == orig.skip(k),
            kept@ == admitted_windows(orig.take(k), exclude_desktop_windows, on_screen_windows_only),
        decreases remaining.len(),
    {
        let w = remaining.remove(0);
        proof {
            assert(w == orig[k]);
            assert(remaining@ =~= orig.skip(k + 1));
            assert(orig.take(k + 1).drop_last() =~= orig.take(k));
            assert(orig.take(k + 1).last() == orig[k]);
        }
        let keep = (!exclude_desktop_windows || !(w.window_layer < 0)) && (!on_screen_windows_only
            || w.on_screen);
        if keep {
            kept.push(w);
        }
        proof {
            k = k + 1;
        }
    }
    proof {
        assert(orig.take(k) =~= orig);
    }
    kept
}

/// Finds the position of the first window with the given id.
fn find_window(windows: &Vec<ShareableWindow>, window_id: u32) -> (r: Option<usize>)
    ensures
        r matches Some(i) ==> i < windows@.len() && window_index(windows@, window_id) == i as int,
        r is None ==> window_index(windows@, window_id) == -1,
{
    let mut i: usize = 0;
    while i < windows.len()
        invariant
            i <= windows.len(),
            forall|j: int| 0 <= j < i ==> (#[trigger] windows@[j]).window_id != window_id,
        decreases windows.len() - i,
    {
        if windows[i].window_id == window_id {
            proof {
                lemma_window_index_first(windows@, window_id, i as int);
            }
            return Some(i);
        }
        i = i + 1;
    }
    proof {
        lemma_window_index_none(windows@, window_id);
    }
    None
}

impl ShareableContent {
    /// The enumeration result for the plain option pair: displays and
    /// applications are kept whole; a window is kept exactly when the
    /// options admit it, in backend order.
    pub fn excluding_desktop_windows(
        self,
        exclude_desktop_windows: bool,
        on_screen_windows_only: bool,
    ) -> (r: ShareableContent)
        ensures
            r.displays@ == self.displays@,
            r.applications@ == self.applications@,
            r.windows@ == admitted_windows(
                self.windows@,
                exclude_desktop_windows,
                on_screen_windows_only,
            ),
    {
        let ShareableContent { displays, windows, applications } = self;
        let kept = filter_windows(windows, exclude_desktop_windows, on_screen_windows_only);
        ShareableContent { displays, windows: kept, applications }
    }

    /// The enumeration result restricted to on-screen windows strictly
    /// below the named window, front to back; no window when the named
    /// one is absent from the snapshot.
    pub fn excluding_desktop_windows_below_window(
        self,
        exclude_desktop_windows: bool,
        window_id: u32,
    ) -> (r: ShareableContent)
        ensures
            r.displays@ == self.displays@,
            r.applications@ == self.applications@,
            r.windows@ == windows_below(self.windows@, exclude_desktop_windows, window_id),
    {
        let ghost orig = self.windows@;
        let ShareableContent { displays, windows, applications } = self;
        let t = match find_window(&windows, window_id) {
            Some(t) => t,
            None => {
                return ShareableContent { displays, windows: Vec::new(), applications };
            },
        };
        let mut remaining = windows;
        let total: usize = remaining.len();
        let mut dropped: usize = 0;
        while dropped <= t
            invariant
                dropped <= t + 1,
                t < orig.len(),
                orig.len() == total as int,
                remaining@ == orig.skip(dropped as int),
            decreases t + 1 - dropped,
        {
            let _front = remaining.remove(0);
            proof {
                assert(remaining@ =~= orig.skip(dropped as int + 1));
            }
            dropped = dropped + 1;
        }
        let kept = filter_windows(remaining, exclude_desktop_windows, true);
        ShareableContent { displays, windows: kept, applications }
    }

    /// The enumeration result restricted to on-screen windows strictly
    /// above the named window, front to back; no window when the named
    /// one is absent from the snapshot.
    pub fn excluding_desktop_windows_above_window(
        self,
        exclude_desktop_windows: bool,
        window_id: u32,
    ) -> (r: ShareableContent)
        ensures
            r.displays@ == self.displays@,
            r.applications@ == self.applications@,
            r.windows@ == windows_above(self.windows@, exclude_desktop_windows, window_id),
    {
        let ghost orig = self.windows@;
        let ShareableContent { displays, windows, applications } = self;
        let t = match find_window(&windows, window_id) {
            Some(t) => t,
            None => {
                return ShareableContent { displays, windows: Vec::new(), applications };
            },
        };
        let mut remaining = windows;
        proof {
            assert(remaining@ =~= orig.take(remaining@.len() as int));
        }
        while remaining.len() > t
            invariant
                t <= remaining@.len(),
                remaining@.len() <= orig.len(),
                remaining@ == orig.take(remaining@.len() as int),
            decreases remaining.len(),
        {
            let ghost previous_len = remaining@.len() as int;
            let _back = remaining.pop();
            proof {
                assert(remaining@ =~= orig.take(previous_len - 1));
            }
        }
        let kept = filter_windows(remaining, exclude_desktop_windows, true);
        ShareableContent { displays, windows: kept, applications }
    }
}

/// What one enumeration call asks for.
#[derive(Clone, Copy, PartialEq, Eq, Structural, Debug)]
pub enum EnumerationScope {
    /// Every shareable window, subject to the two option flags.
    All { exclude_desktop_windows: bool, on_screen_windows_only: bool },
    /// Only on-screen windows strictly below the named window.
    BelowWindow { exclude_desktop_windows: bool, window_id: u32 },
    /// Only on-screen windows strictly above the named window.
    AboveWindow { exclude_desktop_windows: bool, window_id: u32 },
}

/// The windows an enumeration with the given scope reports from a
/// snapshot.
pub open spec fn scope_windows(s: Seq<ShareableWindow>, scope: EnumerationScope) -> Seq<
    ShareableWindow,
> {
    match scope {
        EnumerationScope::All { exclude_desktop_windows, on_screen_windows_only } => admitted_windows(
            s,
            exclude_desktop_windows,
            on_screen_windows_only,
        ),
        EnumerationScope::BelowWindow { exclude_desktop_windows, window_id } => windows_below(
            s,
            exclude_desktop_windows,
            window_id,
        ),
        EnumerationScope::AboveWindow { exclude_desktop_windows, window_id } => windows_above(
            s,
            exclude_desktop_windows,
            window_id,
        ),
    }
}

impl ShareableContent {
    /// The enumeration result a scope selects from this snapshot.
    pub fn select(self, scope: EnumerationScope) -> (r: ShareableContent)
        ensures
            r.displays@ == self.displays@,
            r.applications@ == self.applications@,
            r.windows@ == scope_windows(self.windows@, scope),
    {
        match scope {
            EnumerationScope::All { exclude_desktop_windows, on_screen_windows_only } => self
                .excluding_desktop_windows(exclude_desktop_windows, on_screen_windows_only),
            EnumerationScope::BelowWindow { exclude_desktop_windows, window_id } => self
                .excluding_desktop_windows_below_window(exclude_desktop_windows, window_id),
            EnumerationScope::AboveWindow { exclude_desktop_windows, window_id } => self
                .excluding_desktop_windows_above_window(exclude_desktop_windows, window_id),
        }
    }
}

/// One in-flight enumeration call. Exactly one completion is owed per
/// call — a result set or an error, never both: the request accepts the
/// backend's verdict once and rejects every later one. That the backend
/// eventually produces some verdict is its own obligation; this layer
/// enforces that no second one is ever acted on.
#[derive(Debug)]
pub struct EnumerationRequest {
    scope: EnumerationScope,
    completed: bool,
}

impl EnumerationRequest {
    /// What the call asked for.
    pub closed spec fn scope_spec(&self) -> EnumerationScope {
        self.scope
    }

    /// Whether a completion has already been accepted.
    pub closed spec fn completed_spec(&self) -> bool {
        self.completed
    }

    /// Issues an enumeration call with the given scope; no completion
    /// has fired yet.
    pub fn new(scope: EnumerationScope) -> (r: EnumerationRequest)
        ensures
            r.scope_spec() == scope,
            !r.completed_spec(),
    {
        EnumerationRequest { scope, completed: false }
    }

    /// What the call asked for.
    pub fn scope(&self) -> (r: EnumerationScope)
        ensures
            r == self.scope_spec(),
    {
        self.scope
    }

    /// Consumes a success verdict from the backend: applies the scope
    /// to the snapshot and spends the one completion. A request that
    /// already completed rejects the verdict with `InvalidState` and
    /// the snapshot is dropped.
    pub fn complete_with_content(&mut self, snapshot: ShareableContent) -> (r: Result<
        ShareableContent,
        CaptureError,
    >)
        ensures
            final(self).scope_spec() == old(self).scope_spec(),
            final(self).completed_spec(),
            !old(self).completed_spec() ==> (r matches Ok(c) && c.displays@ == snapshot.displays@
                && c.applications@ == snapshot.applications@ && c.windows@ == scope_windows(
                snapshot.windows@,
                old(self).scope_spec(),
            )),
            old(self).completed_spec() ==> (r matches Err(e) && e.kind
                == CaptureErrorKind::InvalidState && e.message@ == Seq::<char>::empty()),
    {
        if self.completed {
            return Err(CaptureError::new(CaptureErrorKind::InvalidState));
        }
        self.completed = true;
        Ok(snapshot.select(self.scope))
    }

    /// Accepts the backend's failure verdict — permission denied or a
    /// backend refusal — and spends the one completion, handing the
    /// error back for the caller's continuation. A request that already
    /// completed rejects the verdict with `InvalidState`.
    pub fn complete_with_error(&mut self, error: CaptureError) -> (r: Result<
        CaptureError,
        CaptureError,
    >)
        ensures
            final(self).scope_spec() == old(self).scope_spec(),
            final(self).completed_spec(),
            !old(self).completed_spec() ==> r == Ok::<CaptureError, CaptureError>(error),
            old(self).completed_spec() ==> (r matches Err(e) && e.kind
                == CaptureErrorKind::InvalidState && e.message@ == Seq::<char>::empty()),
    {
        if self.completed {
            return Err(CaptureError::new(CaptureErrorKind::InvalidState));
        }
        self.completed = true;
        Ok(error)
    }
}

} // verus!
