//! Watch-only wallet synchronization engine.
//!
//! The crate reconciles a locally persisted wallet's view (swap-contract
//! outputs and fidelity-bond commitments) against the state held by an
//! external full-node ledger service.  All decisions — which descriptors to
//! derive, which to import, when to rescan and what height to record — are
//! made here and verified; the surrounding binary performs the RPC calls and
//! feeds the answers back as events.

pub mod catalog;
pub mod config;
pub mod descriptor;
pub mod error;
pub mod hex;
pub mod laws;
pub mod machine;
pub mod store;
