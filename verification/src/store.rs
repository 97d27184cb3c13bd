//! The locally persisted wallet state read and advanced by a sync run.

use vstd::prelude::*;

verus! {

/// One side of a two-party swap contract tracked by the wallet.
///
/// Public keys are carried in their canonical lowercase-hex text form, the
/// form in which they appear inside a descriptor.
pub struct SwapCoin {
    /// The counterparty's public key, hex text.
    pub other_pubkey: String,
    /// Our own public key, hex text.
    pub my_pubkey: String,
    /// The contract's redeem script, raw bytes.
    pub contract_redeemscript: Vec<u8>,
}

/// A fidelity-bond commitment tracked by the wallet, reduced to the script
/// the ledger service must watch.
pub struct FidelityBond {
    /// The bond output's script-pub-key, raw bytes.
    pub script_pub_key: Vec<u8>,
}

/// The wallet's persisted view.  Swap coins and fidelity bonds are created
/// elsewhere and only read here; `last_synced_height` and `external_index`
/// are the two fields a successful sync run advances.
pub struct WalletStore {
    /// Stable wallet identity: the wallet name known to the ledger service.
    pub file_name: String,
    /// Swap coins on the receiving side, in tracking order.
    pub incoming_swapcoins: Vec<SwapCoin>,
    /// Swap coins on the sending side, in tracking order.
    pub outgoing_swapcoins: Vec<SwapCoin>,
    /// Fidelity bonds, in insertion order.
    pub fidelity_bonds: Vec<FidelityBond>,
    /// Highest block height already scanned, if any scan completed.
    pub last_synced_height: Option<u64>,
    /// Earliest relevant height, a floor for rescans.
    pub wallet_birthday: Option<u64>,
    /// Next unused external-chain derivation index.
    pub external_index: u32,
}

/// The height a rescan must start from: the highest already-scanned height,
/// floored by the wallet birthday, each defaulting to zero.
pub open spec fn rescan_start_of(store: WalletStore) -> u64 {
    let synced = match store.last_synced_height {
        Some(h) => h,
        None => 0u64,
    };
    let birthday = match store.wallet_birthday {
        Some(b) => b,
        None => 0u64,
    };
    if synced >= birthday {
        synced
    } else {
        birthday
    }
}

/// Computes the rescan start height of a store.
pub fn rescan_start_height(store: &WalletStore) -> (r: u64)
    ensures
        r == rescan_start_of(*store),
{
    let synced: u64 = match store.last_synced_height {
        Some(h) => h,
        None => 0u64,
    };
    let birthday: u64 = match store.wallet_birthday {
        Some(b) => b,
        None => 0u64,
    };
    if synced >= birthday {
        synced
    } else {
        birthday
    }
}

} // verus!
