//! A certificate registry: authorized issuers create credential records,
//! the administrator manages the issuer set, and anyone can look up or
//! verify a certificate's current validity.
//!
//! The registry itself is a plain in-memory state machine. Caller
//! authentication, persistence, clocks and event delivery belong to the
//! surrounding host: operations take the already-authenticated caller
//! address and the current timestamp as arguments, and record emitted
//! events in the registry state.

pub mod certificate_issuance;
pub mod laws;
pub mod state;
pub mod types;
