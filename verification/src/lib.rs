//! Session and authentication core of a multi-user service.
//!
//! The library issues opaque bearer tokens at login, tracks per-user session
//! state with a fixed 30-day expiry, evicts expired sessions lazily, and
//! gates profile and submission lookups behind session verification.
//! Credential checking, profile storage and the submission database are
//! external collaborators: callers perform those calls and hand the results
//! to the functions here, which are verified for every such result.

pub mod types;
pub mod errors;
mod external;
pub mod controller;
pub mod submissions;
pub mod laws;
