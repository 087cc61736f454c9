//! The capture session: the stateful object binding one filter and one
//! configuration to a running capture.
//!
//! Lifecycle: constructed idle and unstarted; `start` and `stop` move
//! between idle and running through one-shot backend completions;
//! `release` is terminal. Output registrations bind a sink to a kind and
//! a delivery queue and are keyed by the kind-queue pair. Every decision
//! this layer takes — which operations are legal in which state, when a
//! completion may fire, which registrations a produced frame reaches —
//! is a pure function of the session model, stated below as spec
//! transitions; the executable methods are proved to follow them.
//!
//! Backend interaction is split in two: an operation records its request
//! synchronously (or rejects it without any backend round trip), and the
//! matching `complete_*` method consumes the backend's one-shot verdict.
//! An unsolicited stream failure arrives through
//! [`CaptureSession::notify_stream_failure`].

use vstd::prelude::*;

use crate::configuration::StreamConfiguration;
use crate::delivery::OutputKind;
use crate::error::{CaptureError, CaptureErrorKind};
use crate::filter::ContentFilter;

verus! {

/// The lifecycle states of a session.
#[derive(Clone, Copy, PartialEq, Eq, Structural, Debug)]
pub enum SessionState {
    /// Constructed, never started.
    IdleUnstarted,
    /// Emitting frames.
    Running,
    /// Stopped after running; may be started again.
    IdleStopped,
    /// Torn down; every further operation fails.
    Released,
}

/// One output registration: `sink` receives frames of `kind` on the
/// serial queue named `queue`. Sinks and queues are named by ids.
#[derive(Clone, Copy, PartialEq, Eq, Structural, Debug)]
pub struct Registration {
    pub sink: u64,
    pub kind: OutputKind,
    pub queue: u64,
}

/// The mathematical state of a session: everything its decisions depend
/// on. The `pending_*` fields record requests whose one-shot backend
/// completion has not fired yet.
#[verifier::ext_equal]
pub ghost struct SessionModel {
    pub state: SessionState,
    pub outputs: Seq<Registration>,
    pub filter: ContentFilter,
    pub configuration: StreamConfiguration,
    pub delegate: Option<u64>,
    pub pending_start: bool,
    pub pending_stop: bool,
    pub pending_filter: Option<ContentFilter>,
    pub pending_configuration: Option<StreamConfiguration>,
}

/// Whether some registration already binds the kind-queue pair.
pub open spec fn has_output(s: SessionModel, kind: OutputKind, queue: u64) -> bool {
    exists|i: int| 0 <= i < s.outputs.len() && (#[trigger] s.outputs[i]).kind == kind
        && s.outputs[i].queue == queue
}

/// Whether the sink holds a registration of the given kind.
pub open spec fn has_sink_registration(s: SessionModel, sink: u64, kind: OutputKind) -> bool {
    exists|i: int| 0 <= i < s.outputs.len() && (#[trigger] s.outputs[i]).sink == sink
        && s.outputs[i].kind == kind
}

/// The caller-error verdict of `attach_output`, decided by this layer
/// alone — before and independently of the backend: use after release
/// or a duplicate kind-queue binding.
pub open spec fn attach_outcome(s: SessionModel, kind: OutputKind, queue: u64) -> Option<
    CaptureErrorKind,
> {
    if s.state is Released {
        Some(CaptureErrorKind::UseAfterRelease)
    } else if has_output(s, kind, queue) {
        Some(CaptureErrorKind::DuplicateOutput)
    } else {
        None
    }
}

/// The session after `attach_output`: the registration is appended when
/// this layer accepts it and the backend did not decline; nothing
/// changes on any rejection.
pub open spec fn attach_step(
    s: SessionModel,
    sink: u64,
    kind: OutputKind,
    queue: u64,
    backend_accepted: bool,
) -> SessionModel {
    if attach_outcome(s, kind, queue) is None && backend_accepted {
        SessionModel { outputs: s.outputs.push(Registration { sink, kind, queue }), ..s }
    } else {
        s
    }
}

/// The registrations kept by `detach_output(sink, kind)`: everything but
/// the sink's registrations of that kind, in order.
pub open spec fn retained_outputs(outputs: Seq<Registration>, sink: u64, kind: OutputKind) -> Seq<
    Registration,
>
    decreases outputs.len(),
{
    if outputs.len() == 0 {
        Seq::empty()
    } else {
        let rest = retained_outputs(outputs.drop_last(), sink, kind);
        if outputs.last().sink == sink && outputs.last().kind == kind {
            rest
        } else {
            rest.push(outputs.last())
        }
    }
}

/// Synchronous verdict of `detach_output`.
pub open spec fn detach_outcome(s: SessionModel, sink: u64, kind: OutputKind) -> Option<
    CaptureErrorKind,
> {
    if s.state is Released {
        Some(CaptureErrorKind::UseAfterRelease)
    } else if !has_sink_registration(s, sink, kind) {
        Some(CaptureErrorKind::NotFound)
    } else {
        None
    }
}

/// The session after `detach_output`.
pub open spec fn detach_step(s: SessionModel, sink: u64, kind: OutputKind) -> SessionModel {
    if detach_outcome(s, sink, kind) is None {
        SessionModel { outputs: retained_outputs(s.outputs, sink, kind), ..s }
    } else {
        s
    }
}

/// Synchronous verdict of `start`: rejected after release, while already
/// running, or while a start or stop is still in flight — all without a
/// backend round trip.
pub open spec fn start_outcome(s: SessionModel) -> Option<CaptureErrorKind> {
    if s.state is Released {
        Some(CaptureErrorKind::UseAfterRelease)
    } else if s.state is Running {
        Some(CaptureErrorKind::InvalidState)
    } else if s.pending_start || s.pending_stop {
        Some(CaptureErrorKind::InvalidState)
    } else {
        None
    }
}

/// The session after `start`: acceptance records the in-flight request;
/// the state moves only when the completion fires.
pub open spec fn start_step(s: SessionModel) -> SessionModel {
    if start_outcome(s) is None {
        SessionModel { pending_start: true, ..s }
    } else {
        s
    }
}

/// Verdict on a start completion: only a recorded, unfired start request
/// may complete, and never after release.
pub open spec fn start_completion_outcome(s: SessionModel) -> Option<CaptureErrorKind> {
    if s.state is Released {
        Some(CaptureErrorKind::UseAfterRelease)
    } else if !s.pending_start {
        Some(CaptureErrorKind::InvalidState)
    } else {
        None
    }
}

/// The session after a start completion: success enters `Running`,
/// failure keeps the idle state; either way the request is spent.
pub open spec fn start_completion_step(s: SessionModel, success: bool) -> SessionModel {
    if start_completion_outcome(s) is None {
        if success {
            SessionModel { state: SessionState::Running, pending_start: false, ..s }
        } else {
            SessionModel { pending_start: false, ..s }
        }
    } else {
        s
    }
}

/// Synchronous verdict of `stop`: rejected after release, while not
/// running, or while a stop is already in flight.
pub open spec fn stop_outcome(s: SessionModel) -> Option<CaptureErrorKind> {
    if s.state is Released {
        Some(CaptureErrorKind::UseAfterRelease)
    } else if !(s.state is Running) {
        Some(CaptureErrorKind::InvalidState)
    } else if s.pending_stop {
        Some(CaptureErrorKind::InvalidState)
    } else {
        None
    }
}

/// The session after `stop`: acceptance records the in-flight request.
pub open spec fn stop_step(s: SessionModel) -> SessionModel {
    if stop_outcome(s) is None {
        SessionModel { pending_stop: true, ..s }
    } else {
        s
    }
}

/// Verdict on a stop completion.
pub open spec fn stop_completion_outcome(s: SessionModel) -> Option<CaptureErrorKind> {
    if s.state is Released {
        Some(CaptureErrorKind::UseAfterRelease)
    } else if !s.pending_stop {
        Some(CaptureErrorKind::InvalidState)
    } else {
        None
    }
}

/// The session after a stop completion: success leaves `Running` for
/// `IdleStopped`, failure keeps the capture running.
pub open spec fn stop_completion_step(s: SessionModel, success: bool) -> SessionModel {
    if stop_completion_outcome(s) is None {
        if success {
            SessionModel { state: SessionState::IdleStopped, pending_stop: false, ..s }
        } else {
            SessionModel { pending_stop: false, ..s }
        }
    } else {
        s
    }
}

/// Synchronous verdict of `update_filter`: permitted in any non-released
/// state, one update in flight at a time.
pub open spec fn update_filter_outcome(s: SessionModel) -> Option<CaptureErrorKind> {
    if s.state is Released {
        Some(CaptureErrorKind::UseAfterRelease)
    } else if s.pending_filter is Some {
        Some(CaptureErrorKind::InvalidState)
    } else {
        None
    }
}

/// The session after `update_filter`: the new filter is only staged; the
/// current one stays in effect until the completion succeeds.
pub open spec fn update_filter_step(s: SessionModel, filter: ContentFilter) -> SessionModel {
    if update_filter_outcome(s) is None {
        SessionModel { pending_filter: Some(filter), ..s }
    } else {
        s
    }
}

/// Verdict on a filter-update completion.
pub open spec fn update_filter_completion_outcome(s: SessionModel) -> Option<CaptureErrorKind> {
    if s.state is Released {
        Some(CaptureErrorKind::UseAfterRelease)
    } else if !(s.pending_filter is Some) {
        Some(CaptureErrorKind::InvalidState)
    } else {
        None
    }
}

/// The session after a filter-update completion: success installs the
/// staged filter, failure discards it and the previous filter remains in
/// effect.
pub open spec fn update_filter_completion_step(s: SessionModel, success: bool) -> SessionModel {
    if update_filter_completion_outcome(s) is None {
        if success {
            SessionModel { filter: s.pending_filter->Some_0, pending_filter: None, ..s }
        } else {
            SessionModel { pending_filter: None, ..s }
        }
    } else {
        s
    }
}

/// Synchronous verdict of `update_configuration`.
pub open spec fn update_configuration_outcome(s: SessionModel) -> Option<CaptureErrorKind> {
    if s.state is Released {
        Some(CaptureErrorKind::UseAfterRelease)
    } else if s.pending_configuration is Some {
        Some(CaptureErrorKind::InvalidState)
    } else {
        None
    }
}

/// The session after `update_configuration`: the new configuration is
/// staged until its completion succeeds.
pub open spec fn update_configuration_step(s: SessionModel, configuration: StreamConfiguration)
    -> SessionModel {
    if update_configuration_outcome(s) is None {
        SessionModel { pending_configuration: Some(configuration), ..s }
    } else {
        s
    }
}

/// Verdict on a configuration-update completion.
pub open spec fn update_configuration_completion_outcome(s: SessionModel) -> Option<
    CaptureErrorKind,
> {
    if s.state is Released {
        Some(CaptureErrorKind::UseAfterRelease)
    } else if !(s.pending_configuration is Some) {
        Some(CaptureErrorKind::InvalidState)
    } else {
        None
    }
}

/// The session after a configuration-update completion: success installs
/// the staged configuration, failure keeps the previous one in effect.
pub open spec fn update_configuration_completion_step(s: SessionModel, success: bool) -> SessionModel {
    if update_configuration_completion_outcome(s) is None {
        if success {
            SessionModel {
                configuration: s.pending_configuration->Some_0,
                pending_configuration: None,
                ..s
            }
        } else {
            SessionModel { pending_configuration: None, ..s }
        }
    } else {
        s
    }
}

/// Whether an unsolicited stream failure acts on the session: only while
/// running; at most one per running period, since it ends the period.
pub open spec fn failure_acts(s: SessionModel) -> bool {
    s.state is Running
}

/// The session after a stream failure: the running period ends, the
/// session is stopped, and any in-flight start or stop request is
/// superseded. Outside `Running` the failure is ignored.
pub open spec fn failure_step(s: SessionModel) -> SessionModel {
    if failure_acts(s) {
        SessionModel {
            state: SessionState::IdleStopped,
            pending_start: false,
            pending_stop: false,
            ..s
        }
    } else {
        s
    }
}

/// Synchronous verdict of `release`: legal from every state except
/// `Released` itself.
pub open spec fn release_outcome(s: SessionModel) -> Option<CaptureErrorKind> {
    if s.state is Released {
        Some(CaptureErrorKind::UseAfterRelease)
    } else {
        None
    }
}

/// The session after `release`: every registration and the delegate
/// binding are torn down, every in-flight request is dropped.
pub open spec fn release_step(s: SessionModel) -> SessionModel {
    if release_outcome(s) is None {
        SessionModel {
            state: SessionState::Released,
            outputs: Seq::empty(),
            delegate: None,
            pending_start: false,
            pending_stop: false,
            pending_filter: None,
            pending_configuration: None,
            ..s
        }
    } else {
        s
    }
}

/// The registrations of one kind, in registration order.
pub open spec fn outputs_of_kind(outputs: Seq<Registration>, kind: OutputKind) -> Seq<Registration>
    decreases outputs.len(),
{
    if outputs.len() == 0 {
        Seq::empty()
    } else {
        let rest = outputs_of_kind(outputs.drop_last(), kind);
        if outputs.last().kind == kind {
            rest.push(outputs.last())
        } else {
            rest
        }
    }
}

/// The registrations a produced frame of `kind` reaches: the matching
/// ones while running, none in any other state — once a stop or failure
/// is observed, no further frame is dispatched.
pub open spec fn dispatch_targets(s: SessionModel, kind: OutputKind) -> Seq<Registration> {
    if s.state is Running {
        outputs_of_kind(s.outputs, kind)
    } else {
        Seq::empty()
    }
}

/// The delegate notification produced by a stream failure.
#[derive(Debug)]
pub struct FailureNotification {
    pub delegate: u64,
    pub error: CaptureError,
}

/// A capture session. The executable state mirrors [`SessionModel`],
/// which `view` exposes; every method's contract ties its result to the
/// `*_outcome` function and its effect to the `*_step` function above.
#[derive(Debug)]
pub struct CaptureSession {
    state: SessionState,
    outputs: Vec<Registration>,
    filter: ContentFilter,
    configuration: StreamConfiguration,
    delegate: Option<u64>,
    pending_start: bool,
    pending_stop: bool,
    pending_filter: Option<ContentFilter>,
    pending_configuration: Option<StreamConfiguration>,
}

impl View for CaptureSession {
    type V = SessionModel;

    closed spec fn view(&self) -> SessionModel {
        SessionModel {
            state: self.state,
            outputs: self.outputs@,
            filter: self.filter,
            configuration: self.configuration,
            delegate: self.delegate,
            pending_start: self.pending_start,
            pending_stop: self.pending_stop,
            pending_filter: self.pending_filter,
            pending_configuration: self.pending_configuration,
        }
    }
}

impl CaptureSession {
    /// Binds a filter, a configuration, and the failure delegate into a
    /// new, idle, unstarted session with no output registrations.
    pub fn new(filter: ContentFilter, configuration: StreamConfiguration, delegate: u64) -> (s:
        CaptureSession)
        ensures
            s@ == (SessionModel {
                state: SessionState::IdleUnstarted,
                outputs: Seq::empty(),
                filter,
                configuration,
                delegate: Some(delegate),
                pending_start: false,
                pending_stop: false,
                pending_filter: None,
                pending_configuration: None,
            }),
    {
        let s = CaptureSession {
            state: SessionState::IdleUnstarted,
            outputs: Vec::new(),
            filter,
            configuration,
            delegate: Some(delegate),
            pending_start: false,
            pending_stop: false,
            pending_filter: None,
            pending_configuration: None,
        };
        proof {
            assert(s@.outputs =~= Seq::<Registration>::empty());
            assert(s@ =~= (SessionModel {
                state: SessionState::IdleUnstarted,
                outputs: Seq::empty(),
                filter: s@.filter,
                configuration: s@.configuration,
                delegate: Some(delegate),
                pending_start: false,
                pending_stop: false,
                pending_filter: None,
                pending_configuration: None,
            }));
        }
        s
    }

    /// The session's current lifecycle state.
    pub fn state(&self) -> (r: SessionState)
        ensures
            r == self@.state,
    {
        self.state
    }

    /// The filter currently in effect.
    pub fn filter(&self) -> (r: &ContentFilter)
        ensures
            r == &self@.filter,
    {
        &self.filter
    }

    /// The configuration currently in effect.
    pub fn configuration(&self) -> (r: &StreamConfiguration)
        ensures
            r == &self@.configuration,
    {
        &self.configuration
    }

    /// The current output registrations, in registration order.
    pub fn outputs(&self) -> (r: &Vec<Registration>)
        ensures
            r@ == self@.outputs,
    {
        &self.outputs
    }

    /// Registers `sink` for frames of `kind` on queue `queue`. Rejected
    /// with `DuplicateOutput` when the kind-queue pair is already bound
    /// and with `UseAfterRelease` after release — both decided here,
    /// independent of `backend_verdict`. Where this layer accepts,
    /// `backend_verdict` is the backend's say on the registration: a
    /// declination surfaces unchanged on the error path and nothing is
    /// registered. On `Ok` the binding is fixed until `detach_output`.
    pub fn attach_output(
        &mut self,
        sink: u64,
        kind: OutputKind,
        queue: u64,
        backend_verdict: Option<CaptureError>,
    ) -> (r: Result<(), CaptureError>)
        ensures
            final(self)@ == attach_step(old(self)@, sink, kind, queue, backend_verdict is None),
            attach_outcome(old(self)@, kind, queue) matches Some(k) ==> (r matches Err(e)
                && e.kind == k
                && e.message@ == Seq::<char>::empty()),
            attach_outcome(old(self)@, kind, queue) is None && backend_verdict is None ==> r is Ok,
            (attach_outcome(old(self)@, kind, queue) is None && backend_verdict is Some) ==> r
                == Err::<(), CaptureError>(backend_verdict->Some_0),
    {
        if self.state == SessionState::Released {
            return Err(CaptureError::new(CaptureErrorKind::UseAfterRelease));
        }
        let mut i: usize = 0;
        let mut duplicate: bool = false;
        while i < self.outputs.len()
            invariant
                i <= self.outputs.len(),
                duplicate <==> exists|k: int| 0 <= k < i && (#[trigger] self.outputs@[k]).kind
                    == kind && self.outputs@[k].queue == queue,
            decreases self.outputs.len() - i,
        {
            if self.outputs[i].kind == kind && self.outputs[i].queue == queue {
                duplicate = true;
            }
            i = i + 1;
        }
        if duplicate {
            return Err(CaptureError::new(CaptureErrorKind::DuplicateOutput));
        }
        if let Some(declined) = backend_verdict {
            return Err(declined);
        }
        self.outputs.push(Registration { sink, kind, queue });
        Ok(())
    }

    /// Removes the sink's registrations of `kind`. Rejected with
    /// `NotFound` when none exists, with `UseAfterRelease` after release.
    pub fn detach_output(&mut self, sink: u64, kind: OutputKind) -> (r: Result<(), CaptureError>)
        ensures
            final(self)@ == detach_step(old(self)@, sink, kind),
            detach_outcome(old(self)@, sink, kind) is None ==> r is Ok,
            detach_outcome(old(self)@, sink, kind) matches Some(k) ==> (r matches Err(e) && e.kind
                == k && e.message@ == Seq::<char>::empty()),
    {
        if self.state == SessionState::Released {
            return Err(CaptureError::new(CaptureErrorKind::UseAfterRelease));
        }
        let mut kept: Vec<Registration> = Vec::new();
        let mut found: bool = false;
        let mut i: usize = 0;
        while i < self.outputs.len()
            invariant
                i <= self.outputs.len(),
                kept@ == retained_outputs(self.outputs@.take(i as int), sink, kind),
                found <==> exists|k: int| 0 <= k < i && (#[trigger] self.outputs@[k]).sink == sink
                    && self.outputs@[k].kind == kind,
            decreases self.outputs.len() - i,
        {
            proof {
                assert(self.outputs@.take(i as int + 1).drop_last() =~= self.outputs@.take(
                    i as int));
                assert(self.outputs@.take(i as int + 1).last() == self.outputs@[i as int]);
            }
            if self.outputs[i].sink == sink && self.outputs[i].kind == kind {
                found = true;
            } else {
                kept.push(self.outputs[i]);
            }
            i = i + 1;
        }
        proof {
            assert(self.outputs@.take(self.outputs@.len() as int) =~= self.outputs@);
        }
        if !found {
            return Err(CaptureError::new(CaptureErrorKind::NotFound));
        }
        self.outputs = kept;
        Ok(())
    }

    /// Requests the transition to `Running`. Rejected synchronously —
    /// with no backend call — while already running or while a start or
    /// stop is in flight; on acceptance the backend's one-shot verdict is
    /// consumed by [`CaptureSession::complete_start`].
    pub fn start(&mut self) -> (r: Result<(), CaptureError>)
        ensures
            final(self)@ == start_step(old(self)@),
            start_outcome(old(self)@) is None ==> r is Ok,
            start_outcome(old(self)@) matches Some(k) ==> (r matches Err(e) && e.kind == k
                && e.message@ == Seq::<char>::empty()),
    {
        if self.state == SessionState::Released {
            return Err(CaptureError::new(CaptureErrorKind::UseAfterRelease));
        }
        if self.state == SessionState::Running {
            return Err(CaptureError::new(CaptureErrorKind::InvalidState));
        }
        if self.pending_start || self.pending_stop {
            return Err(CaptureError::new(CaptureErrorKind::InvalidState));
        }
        self.pending_start = true;
        Ok(())
    }

    /// Consumes the backend's verdict on the in-flight start: fires at
    /// most once per accepted `start`. On success the session is
    /// `Running`; on failure it stays idle. Returns the outcome to hand
    /// to the caller's continuation.
    pub fn complete_start(&mut self, outcome: Option<CaptureError>) -> (r: Result<
        Option<CaptureError>,
        CaptureError,
    >)
        ensures
            final(self)@ == start_completion_step(old(self)@, outcome is None),
            start_completion_outcome(old(self)@) is None ==> r == Ok::<
                Option<CaptureError>,
                CaptureError,
            >(outcome),
            start_completion_outcome(old(self)@) matches Some(k) ==> (r matches Err(e) && e.kind
                == k && e.message@ == Seq::<char>::empty()),
    {
        if self.state == SessionState::Released {
            return Err(CaptureError::new(CaptureErrorKind::UseAfterRelease));
        }
        if !self.pending_start {
            return Err(CaptureError::new(CaptureErrorKind::InvalidState));
        }
        self.pending_start = false;
        if outcome.is_none() {
            self.state = SessionState::Running;
        }
        Ok(outcome)
    }

    /// Requests the transition out of `Running`. Rejected synchronously —
    /// with no backend call — while idle or while a stop is in flight.
    pub fn stop(&mut self) -> (r: Result<(), CaptureError>)
        ensures
            final(self)@ == stop_step(old(self)@),
            stop_outcome(old(self)@) is None ==> r is Ok,
            stop_outcome(old(self)@) matches Some(k) ==> (r matches Err(e) && e.kind == k
                && e.message@ == Seq::<char>::empty()),
    {
        if self.state == SessionState::Released {
            return Err(CaptureError::new(CaptureErrorKind::UseAfterRelease));
        }
        if self.state != SessionState::Running {
            return Err(CaptureError::new(CaptureErrorKind::InvalidState));
        }
        if self.pending_stop {
            return Err(CaptureError::new(CaptureErrorKind::InvalidState));
        }
        self.pending_stop = true;
        Ok(())
    }

    /// Consumes the backend's verdict on the in-flight stop: fires at
    /// most once per accepted `stop`. On success the session is
    /// `IdleStopped`; on failure the capture keeps running.
    pub fn complete_stop(&mut self, outcome: Option<CaptureError>) -> (r: Result<
        Option<CaptureError>,
        CaptureError,
    >)
        ensures
            final(self)@ == stop_completion_step(old(self)@, outcome is None),
            stop_completion_outcome(old(self)@) is None ==> r == Ok::<
                Option<CaptureError>,
                CaptureError,
            >(outcome),
            stop_completion_outcome(old(self)@) matches Some(k) ==> (r matches Err(e) && e.kind
                == k && e.message@ == Seq::<char>::empty()),
    {
        if self.state == SessionState::Released {
            return Err(CaptureError::new(CaptureErrorKind::UseAfterRelease));
        }
        if !self.pending_stop {
            return Err(CaptureError::new(CaptureErrorKind::InvalidState));
        }
        self.pending_stop = false;
        if outcome.is_none() {
            self.state = SessionState::IdleStopped;
        }
        Ok(outcome)
    }

    /// Stages a new filter for live reconfiguration, permitted in any
    /// non-released state; the current filter stays in effect until the
    /// completion succeeds.
    pub fn update_filter(&mut self, filter: ContentFilter) -> (r: Result<(), CaptureError>)
        ensures
            final(self)@ == update_filter_step(old(self)@, filter),
            update_filter_outcome(old(self)@) is None ==> r is Ok,
            update_filter_outcome(old(self)@) matches Some(k) ==> (r matches Err(e) && e.kind
                == k && e.message@ == Seq::<char>::empty()),
    {
        if self.state == SessionState::Released {
            return Err(CaptureError::new(CaptureErrorKind::UseAfterRelease));
        }
        if self.pending_filter.is_some() {
            return Err(CaptureError::new(CaptureErrorKind::InvalidState));
        }
        self.pending_filter = Some(filter);
        Ok(())
    }

    /// Consumes the backend's verdict on the staged filter: success
    /// installs it, failure keeps the previous filter in effect.
    pub fn complete_update_filter(&mut self, outcome: Option<CaptureError>) -> (r: Result<
        Option<CaptureError>,
        CaptureError,
    >)
        ensures
            final(self)@ == update_filter_completion_step(old(self)@, outcome is None),
            update_filter_completion_outcome(old(self)@) is None ==> r == Ok::<
                Option<CaptureError>,
                CaptureError,
            >(outcome),
            update_filter_completion_outcome(old(self)@) matches Some(k) ==> (r matches Err(e)
                && e.kind == k
                && e.message@ == Seq::<char>::empty()),
    {
        if self.state == SessionState::Released {
            return Err(CaptureError::new(CaptureErrorKind::UseAfterRelease));
        }
        if self.pending_filter.is_none() {
            return Err(CaptureError::new(CaptureErrorKind::InvalidState));
        }
        let staged = self.pending_filter.take();
        if outcome.is_none() {
            self.filter = staged.unwrap();
        }
        Ok(outcome)
    }

    /// Stages a new configuration for live reconfiguration; the current
    /// one stays in effect until the completion succeeds.
    pub fn update_configuration(&mut self, configuration: StreamConfiguration) -> (r: Result<
        (),
        CaptureError,
    >)
        ensures
            final(self)@ == update_configuration_step(old(self)@, configuration),
            update_configuration_outcome(old(self)@) is None ==> r is Ok,
            update_configuration_outcome(old(self)@) matches Some(k) ==> (r matches Err(e)
                && e.kind == k
                && e.message@ == Seq::<char>::empty()),
    {
        if self.state == SessionState::Released {
            return Err(CaptureError::new(CaptureErrorKind::UseAfterRelease));
        }
        if self.pending_configuration.is_some() {
            return Err(CaptureError::new(CaptureErrorKind::InvalidState));
        }
        self.pending_configuration = Some(configuration);
        Ok(())
    }

    /// Consumes the backend's verdict on the staged configuration:
    /// success installs it, failure keeps the previous one in effect.
    pub fn complete_update_configuration(&mut self, outcome: Option<CaptureError>) -> (r: Result<
        Option<CaptureError>,
        CaptureError,
    >)
        ensures
            final(self)@ == update_configuration_completion_step(old(self)@, outcome is None),
            update_configuration_completion_outcome(old(self)@) is None ==> r == Ok::<
                Option<CaptureError>,
                CaptureError,
            >(outcome),
            update_configuration_completion_outcome(old(self)@) matches Some(k) ==> (r matches Err(
                e,
            ) && e.kind == k
                && e.message@ == Seq::<char>::empty()),
    {
        if self.state == SessionState::Released {
            return Err(CaptureError::new(CaptureErrorKind::UseAfterRelease));
        }
        if self.pending_configuration.is_none() {
            return Err(CaptureError::new(CaptureErrorKind::InvalidState));
        }
        let staged = self.pending_configuration.take();
        if outcome.is_none() {
            self.configuration = staged.unwrap();
        }
        Ok(outcome)
    }

    /// Delivers an unsolicited stream failure. While running it ends the
    /// running period — the session moves to `IdleStopped` and dispatches
    /// no further frame — and yields the one notification for the failure
    /// delegate. In any other state it is ignored.
    pub fn notify_stream_failure(&mut self, error: CaptureError) -> (r: Option<FailureNotification>)
        ensures
            final(self)@ == failure_step(old(self)@),
            failure_acts(old(self)@) && old(self)@.delegate is Some ==> (r matches Some(n)
                && n.delegate == old(self)@.delegate->Some_0 && n.error == error),
            !(failure_acts(old(self)@) && old(self)@.delegate is Some) ==> r is None,
    {
        if self.state != SessionState::Running {
            return None;
        }
        self.state = SessionState::IdleStopped;
        self.pending_start = false;
        self.pending_stop = false;
        match self.delegate {
            Some(d) => Some(FailureNotification { delegate: d, error }),
            None => None,
        }
    }

    /// Tears the session down: every output registration and the
    /// delegate binding are removed, every in-flight request is dropped,
    /// and every subsequent operation fails with `UseAfterRelease`.
    /// Permitted from every state; a second `release` fails like any
    /// other operation after release.
    pub fn release(&mut self) -> (r: Result<(), CaptureError>)
        ensures
            final(self)@ == release_step(old(self)@),
            release_outcome(old(self)@) is None ==> r is Ok,
            release_outcome(old(self)@) matches Some(k) ==> (r matches Err(e) && e.kind == k
                && e.message@ == Seq::<char>::empty()),
    {
        if self.state == SessionState::Released {
            return Err(CaptureError::new(CaptureErrorKind::UseAfterRelease));
        }
        self.state = SessionState::Released;
        self.outputs = Vec::new();
        self.delegate = None;
        self.pending_start = false;
        self.pending_stop = false;
        self.pending_filter = None;
        self.pending_configuration = None;
        proof {
            assert(self.outputs@ =~= Seq::<Registration>::empty());
        }
        Ok(())
    }

    /// The registrations a produced frame of `kind` reaches right now:
    /// the matching registrations, in registration order, while running;
    /// none in any other state. No frame reaches a sink whose
    /// registration was attached after the frame was dispatched, and none
    /// is dispatched once a stop or failure has been observed.
    pub fn frame_targets(&self, kind: OutputKind) -> (r: Vec<Registration>)
        ensures
            r@ == dispatch_targets(self@, kind),
    {
        let mut targets: Vec<Registration> = Vec::new();
        if self.state != SessionState::Running {
            return targets;
        }
        let mut i: usize = 0;
        while i < self.outputs.len()
            invariant
                i <= self.outputs.len(),
                targets@ == outputs_of_kind(self.outputs@.take(i as int), kind),
            decreases self.outputs.len() - i,
        {
            proof {
                assert(self.outputs@.take(i as int + 1).drop_last() =~= self.outputs@.take(
                    i as int));
                assert(self.outputs@.take(i as int + 1).last() == self.outputs@[i as int]);
            }
            if self.outputs[i].kind == kind {
                targets.push(self.outputs[i]);
            }
            i = i + 1;
        }
        proof {
            assert(self.outputs@.take(self.outputs@.len() as int) =~= self.outputs@);
        }
        targets
    }
}

/// Everything a detach keeps was registered before, nothing it keeps
/// matches the detached (sink, kind) pair, and every other registration
/// is kept.
pub proof fn lemma_retained_outputs_membership(
    outputs: Seq<Registration>,
    sink: u64,
    kind: OutputKind,
)
    ensures
        forall|r: Registration| #[trigger] retained_outputs(outputs, sink, kind).contains(r) <==> (
        outputs.contains(r) && !(r.sink == sink && r.kind == kind)),
    decreases outputs.len(),
{
    let ret = retained_outputs(outputs, sink, kind);
    if outputs.len() == 0 {
        assert(forall|r: Registration| !#[trigger] ret.contains(r));
        assert(forall|r: Registration| !#[trigger] outputs.contains(r));
    } else {
        let prefix = outputs.drop_last();
        let last = outputs.last();
        let rest = retained_outputs(prefix, sink, kind);
        lemma_retained_outputs_membership(prefix, sink, kind);
        assert forall|r: Registration| #[trigger] ret.contains(r) implies (outputs.contains(r) && !(
        r.sink == sink && r.kind == kind)) by {
            if last.sink == sink && last.kind == kind {
                assert(rest.contains(r));
                let j = choose|j: int| 0 <= j < prefix.len() && prefix[j] == r;
                assert(outputs[j] == r);
            } else {
                let i = choose|i: int| 0 <= i < ret.len() && ret[i] == r;
                if i < rest.len() {
                    assert(rest[i] == r);
                    assert(rest.contains(r));
                    let j = choose|j: int| 0 <= j < prefix.len() && prefix[j] == r;
                    assert(outputs[j] == r);
                } else {
                    assert(r == last);
                    assert(outputs[outputs.len() - 1] == r);
                }
            }
        }
        assert forall|r: Registration| outputs.contains(r) && !(r.sink == sink && r.kind == kind)
            implies #[trigger] ret.contains(r) by {
            let i = choose|i: int| 0 <= i < outputs.len() && outputs[i] == r;
            if i < outputs.len() - 1 {
                assert(prefix[i] == r);
                assert(prefix.contains(r));
                assert(rest.contains(r));
                let j = choose|j: int| 0 <= j < rest.len() && rest[j] == r;
                if !(last.sink == sink && last.kind == kind) {
                    assert(ret[j] == r);
                }
            } else {
                assert(r == last);
                assert(ret[ret.len() - 1] == r);
            }
        }
    }
}

/// A produced frame reaches exactly the registrations of its kind: every
/// dispatch target has the frame's kind, every registration of that kind
/// is a target, and targets keep registration order.
pub proof fn lemma_outputs_of_kind_membership(outputs: Seq<Registration>, kind: OutputKind)
    ensures
        forall|i: int| 0 <= i < outputs_of_kind(outputs, kind).len() ==> (
        #[trigger] outputs_of_kind(outputs, kind)[i]).kind == kind,
        forall|r: Registration| #[trigger] outputs_of_kind(outputs, kind).contains(r) <==> (
        outputs.contains(r) && r.kind == kind),
    decreases outputs.len(),
{
    let out = outputs_of_kind(outputs, kind);
    if outputs.len() == 0 {
    } else {
        let prefix = outputs.drop_last();
        let last = outputs.last();
        let rest = outputs_of_kind(prefix, kind);
        lemma_outputs_of_kind_membership(prefix, kind);
        assert forall|r: Registration| #[trigger] out.contains(r) implies (outputs.contains(r)
            && r.kind == kind) by {
            let i = choose|i: int| 0 <= i < out.len() && out[i] == r;
            if last.kind == kind && i == out.len() - 1 {
                assert(r == last);
                assert(outputs[outputs.len() - 1] == r);
            } else {
                assert(rest[i] == r);
                assert(rest.contains(r));
                let j = choose|j: int| 0 <= j < prefix.len() && prefix[j] == r;
                assert(outputs[j] == r);
            }
        }
        assert forall|r: Registration| outputs.contains(r) && r.kind == kind implies
            #[trigger] out.contains(r) by {
            let i = choose|i: int| 0 <= i < outputs.len() && outputs[i] == r;
            if i < outputs.len() - 1 {
                assert(prefix[i] == r);
                assert(prefix.contains(r));
                assert(rest.contains(r));
                let j = choose|j: int| 0 <= j < rest.len() && rest[j] == r;
                if last.kind == kind {
                    assert(out[j] == r);
                }
            } else {
                assert(r == last);
                assert(out[out.len() - 1] == r);
            }
        }
    }
}

/// Law: `start` on a running session and `stop` on an idle one are
/// rejected with `InvalidState` and leave the session untouched — no
/// request toward the backend is recorded.
pub proof fn lemma_wrong_state_rejected_without_backend_call(s: SessionModel)
    ensures
        s.state is Running ==> start_outcome(s) == Some(CaptureErrorKind::InvalidState)
            && start_step(s) == s,
        s.state is IdleUnstarted || s.state is IdleStopped ==> stop_outcome(s) == Some(
        CaptureErrorKind::InvalidState) && stop_step(s) == s,
{
}

/// Law: after an accepted `attach_output(sink, kind, queue)`, a second
/// attach for the same kind-queue pair is rejected with
/// `DuplicateOutput`; after `detach_output(sink, kind)`, attaching the
/// same pair is accepted again.
pub proof fn lemma_attach_detach_reattach(s: SessionModel, sink: u64, kind: OutputKind, queue: u64)
    requires
        attach_outcome(s, kind, queue) is None,
    ensures
        ({
            let s1 = attach_step(s, sink, kind, queue, true);
            &&& attach_outcome(s1, kind, queue) == Some(CaptureErrorKind::DuplicateOutput)
            &&& detach_outcome(s1, sink, kind) is None
            &&& attach_outcome(detach_step(s1, sink, kind), kind, queue) is None
        }),
{
    let r0 = Registration { sink, kind, queue };
    let s1 = attach_step(s, sink, kind, queue, true);
    assert(s1.outputs[s.outputs.len() as int] == r0);
    assert(has_output(s1, kind, queue));
    assert(has_sink_registration(s1, sink, kind));
    let s2 = detach_step(s1, sink, kind);
    lemma_retained_outputs_membership(s1.outputs, sink, kind);
    assert(!has_output(s2, kind, queue)) by {
        if has_output(s2, kind, queue) {
            let i = choose|i: int|
                0 <= i < s2.outputs.len() && (#[trigger] s2.outputs[i]).kind == kind
                    && s2.outputs[i].queue == queue;
            let r = s2.outputs[i];
            assert(s2.outputs.contains(r));
            assert(s1.outputs.contains(r) && !(r.sink == sink && r.kind == kind));
            let j = choose|j: int| 0 <= j < s1.outputs.len() && s1.outputs[j] == r;
            if j < s.outputs.len() {
                assert(s.outputs[j] == r);
                assert(has_output(s, kind, queue));
            } else {
                assert(r == r0);
            }
            assert(false);
        }
    }
}

/// Law: a stream failure while running deterministically moves the
/// session to `IdleStopped`; it is terminal for the running period — no
/// further frame of any kind is dispatched — and a subsequent `start`
/// is accepted: it begins a fresh running period.
pub proof fn lemma_failure_stops_then_restart_is_legal(s: SessionModel, kind: OutputKind)
    requires
        s.state is Running,
    ensures
        failure_step(s).state is IdleStopped,
        dispatch_targets(failure_step(s), kind) == Seq::<Registration>::empty(),
        start_outcome(failure_step(s)) is None,
        start_step(failure_step(s)).pending_start,
{
}

/// Law: once released, every operation — registration, lifecycle,
/// completion, update, or a second release — fails with
/// `UseAfterRelease` and changes nothing, regardless of the history
/// before release; no frame is dispatched either.
pub proof fn lemma_released_rejects_everything(
    s: SessionModel,
    sink: u64,
    kind: OutputKind,
    queue: u64,
    filter: ContentFilter,
    configuration: StreamConfiguration,
    success: bool,
)
    requires
        s.state is Released,
    ensures
        attach_outcome(s, kind, queue) == Some(CaptureErrorKind::UseAfterRelease),
        attach_step(s, sink, kind, queue, success) == s,
        detach_outcome(s, sink, kind) == Some(CaptureErrorKind::UseAfterRelease),
        detach_step(s, sink, kind) == s,
        start_outcome(s) == Some(CaptureErrorKind::UseAfterRelease),
        start_step(s) == s,
        start_completion_outcome(s) == Some(CaptureErrorKind::UseAfterRelease),
        start_completion_step(s, success) == s,
        stop_outcome(s) == Some(CaptureErrorKind::UseAfterRelease),
        stop_step(s) == s,
        stop_completion_outcome(s) == Some(CaptureErrorKind::UseAfterRelease),
        stop_completion_step(s, success) == s,
        update_filter_outcome(s) == Some(CaptureErrorKind::UseAfterRelease),
        update_filter_step(s, filter) == s,
        update_filter_completion_outcome(s) == Some(CaptureErrorKind::UseAfterRelease),
        update_filter_completion_step(s, success) == s,
        update_configuration_outcome(s) == Some(CaptureErrorKind::UseAfterRelease),
        update_configuration_step(s, configuration) == s,
        update_configuration_completion_outcome(s) == Some(CaptureErrorKind::UseAfterRelease),
        update_configuration_completion_step(s, success) == s,
        release_outcome(s) == Some(CaptureErrorKind::UseAfterRelease),
        release_step(s) == s,
        failure_step(s) == s,
        dispatch_targets(s, kind) == Seq::<Registration>::empty(),
{
}

/// Law: `release` from any non-released state is accepted and is
/// terminal: the resulting session is `Released` with no registrations,
/// no delegate, and no in-flight request.
pub proof fn lemma_release_is_terminal(s: SessionModel)
    requires
        !(s.state is Released),
    ensures
        release_outcome(s) is None,
        release_step(s).state is Released,
        release_step(s).outputs.len() == 0,
        release_step(s).delegate is None,
        !release_step(s).pending_start,
        !release_step(s).pending_stop,
        release_step(s).pending_filter is None,
        release_step(s).pending_configuration is None,
{
}

/// No two registrations bind the same kind-queue pair.
pub open spec fn no_duplicate_kind_queue(outputs: Seq<Registration>) -> bool {
    forall|i: int, j: int|
        0 <= i < j < outputs.len() ==> !((#[trigger] outputs[i]).kind
            == (#[trigger] outputs[j]).kind && outputs[i].queue == outputs[j].queue)
}

/// The session invariant: in-flight requests fit the state, a released
/// session holds nothing, a live one holds its delegate, and
/// registrations are unique per kind-queue pair. It holds of a new
/// session by [`CaptureSession::new`]'s contract and is preserved by
/// every transition, per [`lemma_transitions_preserve_wf`].
pub open spec fn wf(s: SessionModel) -> bool {
    &&& (s.pending_start ==> s.state is IdleUnstarted || s.state is IdleStopped)
    &&& (s.pending_stop ==> s.state is Running)
    &&& (s.state is Released ==> s.outputs.len() == 0 && !s.pending_start && !s.pending_stop
        && s.pending_filter is None && s.pending_configuration is None && s.delegate is None)
    &&& (!(s.state is Released) ==> s.delegate is Some)
    &&& no_duplicate_kind_queue(s.outputs)
}

/// Detaching keeps the registrations unique per kind-queue pair.
pub proof fn lemma_retained_outputs_no_duplicates(
    outputs: Seq<Registration>,
    sink: u64,
    kind: OutputKind,
)
    requires
        no_duplicate_kind_queue(outputs),
    ensures
        no_duplicate_kind_queue(retained_outputs(outputs, sink, kind)),
    decreases outputs.len(),
{
    let ret = retained_outputs(outputs, sink, kind);
    if outputs.len() == 0 {
    } else {
        let prefix = outputs.drop_last();
        let last = outputs.last();
        let rest = retained_outputs(prefix, sink, kind);
        assert(no_duplicate_kind_queue(prefix)) by {
            assert forall|i: int, j: int| 0 <= i < j < prefix.len() implies !((
            #[trigger] prefix[i]).kind == (#[trigger] prefix[j]).kind && prefix[i].queue
                == prefix[j].queue) by {
                assert(outputs[i] == prefix[i]);
                assert(outputs[j] == prefix[j]);
            }
        }
        lemma_retained_outputs_no_duplicates(prefix, sink, kind);
        lemma_retained_outputs_membership(prefix, sink, kind);
        if last.sink == sink && last.kind == kind {
        } else {
            assert forall|i: int, j: int| 0 <= i < j < ret.len() implies !((#[trigger] ret[i]).kind
                == (#[trigger] ret[j]).kind && ret[i].queue == ret[j].queue) by {
                if j < rest.len() {
                    assert(ret[i] == rest[i]);
                    assert(ret[j] == rest[j]);
                } else {
                    assert(ret[j] == last);
                    assert(ret[i] == rest[i]);
                    assert(rest.contains(rest[i]));
                    assert(prefix.contains(rest[i]));
                    let k = choose|k: int| 0 <= k < prefix.len() && prefix[k] == rest[i];
                    assert(outputs[k] == rest[i]);
                    assert(outputs[outputs.len() - 1] == last);
                }
            }
        }
    }
}

/// Law: every transition of the session model preserves the invariant
/// [`wf`].
pub proof fn lemma_transitions_preserve_wf(
    s: SessionModel,
    sink: u64,
    kind: OutputKind,
    queue: u64,
    filter: ContentFilter,
    configuration: StreamConfiguration,
    success: bool,
)
    requires
        wf(s),
    ensures
        wf(attach_step(s, sink, kind, queue, success)),
        wf(detach_step(s, sink, kind)),
        wf(start_step(s)),
        wf(start_completion_step(s, success)),
        wf(stop_step(s)),
        wf(stop_completion_step(s, success)),
        wf(update_filter_step(s, filter)),
        wf(update_filter_completion_step(s, success)),
        wf(update_configuration_step(s, configuration)),
        wf(update_configuration_completion_step(s, success)),
        wf(failure_step(s)),
        wf(release_step(s)),
{
    if attach_outcome(s, kind, queue) is None && success {
        let s1 = attach_step(s, sink, kind, queue, success);
        assert(no_duplicate_kind_queue(s1.outputs)) by {
            assert forall|i: int, j: int| 0 <= i < j < s1.outputs.len() implies !((
            #[trigger] s1.outputs[i]).kind == (#[trigger] s1.outputs[j]).kind
                && s1.outputs[i].queue == s1.outputs[j].queue) by {
                if j < s.outputs.len() {
                    assert(s1.outputs[i] == s.outputs[i]);
                    assert(s1.outputs[j] == s.outputs[j]);
                } else {
                    assert(s1.outputs[i] == s.outputs[i]);
                    if s.outputs[i].kind == kind && s.outputs[i].queue == queue {
                        assert(has_output(s, kind, queue));
                        assert(false);
                    }
                }
            }
        }
    }
    if detach_outcome(s, sink, kind) is None {
        lemma_retained_outputs_no_duplicates(s.outputs, sink, kind);
    }
}

} // verus!
