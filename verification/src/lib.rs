//! Simulated deployment of contract classes onto a local ledger snapshot.
//!
//! The crate decides everything about a deployment that can be decided without the ledger
//! engine at hand: the calldata that the test account's dispatcher expects, the salt of each
//! deployment, the order in which the engine is consulted, and what the engine's answers mean.
//! The engine itself is driven by the caller, one request at a time.

pub mod address;
pub mod calldata;
pub mod deploy;
pub mod engine;
pub mod error;
pub mod felt;
pub mod outcome;
pub mod state;
