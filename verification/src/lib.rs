//! A membership-governance engine in the Moloch DAO style.
//!
//! The library is the pure core of the protocol: the proposal lifecycle
//! state machine, share accounting, the per-identity escrow and the pooled
//! guild treasury. Every operation is a function of the explicit contract
//! state plus the caller identity and the current block timestamp, and
//! returns either the successor state (by mutation) together with any
//! requested token transfer, or a typed error that leaves the state
//! untouched. Host concerns — who the caller is, what time it is, and the
//! actual fungible-token transfers — are supplied and performed by the
//! surrounding runtime.

pub mod account;
pub mod bank;
pub mod engine;
pub mod error;
pub mod escrow;
pub mod kv;
pub mod types;

pub use engine::Moloch;
pub use error::Error;
pub use types::{AccountId, Member, Proposal, TransferRequest, UserStorageBalance, Vote};
