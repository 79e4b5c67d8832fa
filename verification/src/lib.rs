//! A token-gated governance engine: time-windowed access passes, quorum-weighted
//! proposals, a multi-signature emergency vault release with cool-down, and a
//! ledger of batched prize distributions.
//!
//! The engine is a pure state machine. The host that drives it supplies the
//! current time and the token balances it reads from its ledger, and performs
//! the transfers that the value-moving operations return; every decision the
//! engine makes is verified against the contracts in these modules.

pub mod access;
pub mod config;
pub mod emergency;
pub mod errors;
pub mod identity;
pub mod params;
pub mod prizes;
pub mod proposals;
pub mod stats;
