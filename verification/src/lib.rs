//! A verified model of a screen-capture client layer: shareable-content
//! discovery, content filters, stream configuration, and the capture-session
//! state machine with its output registrations and frame-delivery queues.
//!
//! The backend that produces pixels is outside this crate; everything the
//! layer itself decides — which operations are legal in which state, how
//! registrations are keyed, what each completion may do, and in what order
//! frames leave a serial queue — is stated in contracts and proved.

pub mod configuration;
pub mod delivery;
pub mod error;
pub mod filter;
pub mod geometry;
pub mod session;
pub mod shareable_content;
