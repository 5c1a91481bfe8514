//! Deterministic state-transition core of a mutual-aid coordination ledger.
//!
//! The library models member profiles, community activities with multi-party
//! verification, labor-action (strike) funding, worker cooperatives, and
//! quadratic-vote governance proposals, all backed by a shared token balance
//! model. Every transition is a plain function from the affected records and
//! the caller-supplied inputs to either the updated records or a named error;
//! a failed transition leaves every record exactly as it was.
//!
//! The host environment is expected to serialize transitions, authenticate
//! callers (handing the core an opaque [`types::Identity`]), supply a trusted
//! monotonic timestamp, and persist the records; none of that appears here.

pub mod dao;
pub mod distribution;
pub mod errors;
pub mod governance;
pub mod math;
pub mod rewards;
pub mod solidarity;
pub mod types;
pub mod verification;
