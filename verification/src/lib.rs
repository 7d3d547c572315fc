//! Session orchestration for an identity provider that may demand an
//! interactive second factor.
//!
//! The crate models the decision logic of a login front end: a single-slot
//! account cache behind a lazily created cell, a challenge relay that
//! normalizes one-time-code payloads and classifies how the bounded wait
//! ended, the login state machine, and the classification of team-listing
//! failures that tells an expired session apart from ordinary errors.
//! All I/O — the provider's network calls and the UI event channel — lives
//! in the host shell, which feeds plain values into these functions.

pub mod account;
pub mod challenge;
pub mod errors;
pub mod login;
pub mod session;
