//! Errors reported by the capture layer.
//!
//! Caller errors (an operation illegal in the current session state,
//! registration bookkeeping mistakes, use after release) are detected
//! synchronously by this layer. Backend refusals reach the caller only
//! through a completion or the failure delegate, carrying a kind and the
//! backend's message.

use vstd::prelude::*;

verus! {

/// The kind of a capture-layer error.
#[derive(Clone, Copy, PartialEq, Eq, Structural, Debug)]
pub enum CaptureErrorKind {
    /// The process holds no screen-recording authorization.
    PermissionDenied,
    /// The operation is illegal for the session's current state.
    InvalidState,
    /// An output is already registered for the kind-queue pair.
    DuplicateOutput,
    /// No matching output registration exists.
    NotFound,
    /// The backend declined the request.
    BackendRejected,
    /// The session was released; no further operation is permitted.
    UseAfterRelease,
    /// An unsolicited runtime failure ended the running capture.
    StreamFailure,
}

/// A structured error: its kind plus the backend's message, where one exists.
/// Errors this layer raises synchronously carry an empty message.
#[derive(Debug)]
pub struct CaptureError {
    pub kind: CaptureErrorKind,
    pub message: String,
}

impl CaptureError {
    /// An error of the given kind with no backend message.
    pub fn new(kind: CaptureErrorKind) -> (r: CaptureError)
        ensures
            r.kind == kind,
            r.message@ == Seq::<char>::empty(),
    {
        CaptureError { kind, message: String::new() }
    }

    /// An error of the given kind carrying a backend message.
    pub fn with_message(kind: CaptureErrorKind, message: String) -> (r: CaptureError)
        ensures
            r.kind == kind,
            r.message == message,
    {
        CaptureError { kind, message }
    }

    /// The error's kind.
    pub fn kind(&self) -> (k: CaptureErrorKind)
        ensures
            k == self.kind,
    {
        self.kind
    }

    /// The backend's message; empty for errors this layer raises itself.
    pub fn message(&self) -> (m: &String)
        ensures
            m == &self.message,
    {
        &self.message
    }
}

} // verus!
