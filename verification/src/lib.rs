//! Host-readiness and state-synchronization core for a spreadsheet side
//! panel.
//!
//! The library models the layer between a rendering loop and an external
//! spreadsheet host: a shared state record ([`state::OfficeState`]), a
//! readiness poller that latches the host's availability
//! ([`poller`]), and a coordinator that gates cell operations on readiness
//! and merges their results back into the shared state ([`coordinator`]).
//! The host itself (an opaque request/response capability) and the
//! rendering of the panel are external collaborators: a driver issues the
//! host calls and hands their outcomes to the verified merge functions.

pub mod coordinator;
pub mod laws;
pub mod poller;
pub mod state;
