//! Error taxonomy of the synchronization engine.

use vstd::prelude::*;

verus! {

/// Failures surfaced by the engine.
///
/// `Protocol` covers configuration faults (a ledger service on the wrong
/// network) and malformed descriptors; `Rpc` carries any other failure
/// reported by the ledger service, propagated without local recovery.
pub enum WalletError {
    /// A protocol-level fault: wrong network, malformed descriptor.
    Protocol(String),
    /// A propagated ledger-service failure.
    Rpc(String),
}

} // verus!
