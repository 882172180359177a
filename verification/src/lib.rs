//! A sandboxed transaction-composition harness for probing smart-contract
//! modules against pinned ledger state.
//!
//! The harness pins a session to remote ledger metadata (version, chain
//! identifier, timestamp), tracks per-account transaction-ordering counters in
//! its own Sequence Ledger, composes well-formed transactions (payload,
//! counter, fee policy, expiry, chain identifier), and decides the typed and
//! raw state reads. Executing transactions, signing, networking and package
//! building belong to the surrounding program: it performs those effects and
//! hands their results back to the verified core.

pub mod address;
pub mod harness;
pub mod ident;
pub mod ledger;
pub mod payload;
pub mod reader;
pub mod txn;
pub mod view;
