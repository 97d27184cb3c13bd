//! The sync engine as a state machine.
//!
//! One `sync()` run is a sequence of request/response exchanges with the
//! ledger service.  Every decision of the run — which wallet-bootstrap path
//! to take, which descriptors to derive and import, when to short-circuit,
//! what rescan interval to use, when to retry, what height to record — is
//! made by [`Wallet::sync_step`], a pure transition verified against
//! [`next_store`], [`next_sync_state`] and [`action_ok`].  The unverified
//! driver around the library performs each returned [`SyncAction`] against
//! the service and feeds the answer back as the next [`SyncEvent`].

use vstd::prelude::*;

use crate::catalog::{
    fidelity_descriptor_texts, fidelity_texts_of, filter_unimported_spec, probe_descriptor_texts,
    probe_texts_of, push_unimported, swap_descriptor_texts, swap_texts_of,
};
use crate::store::{rescan_start_height, rescan_start_of, WalletStore};

verus! {

/// The service version below which wallets are created through the legacy
/// call; at or above it, creation passes the six positional flags.
pub const DESCRIPTOR_WALLET_VERSION: u64 = 210000;

/// Where a sync run stands, between two exchanges with the ledger service.
pub enum SyncState {
    /// Nothing has happened yet.
    Begin,
    /// Awaiting the list of currently loaded wallets.
    CheckingLoaded,
    /// Awaiting the wallet-directory listing.
    CheckingDir,
    /// Awaiting the service version, to choose a creation path.
    CheckingVersion,
    /// Awaiting completion of a load- or create-wallet call.
    PreparingWallet,
    /// Awaiting the wallet's own not-yet-imported descriptors.
    FetchingBaseDescs,
    /// Awaiting checksum resolution of the swap-coin descriptor texts.
    ResolvingSwapDescs { base: Vec<String> },
    /// Awaiting the imported flag of each resolved swap descriptor.
    CheckingImported { base: Vec<String> },
    /// Awaiting the watch-only flags of the probed fidelity-bond scripts.
    ProbingFidelity { base: Vec<String>, descriptors: Vec<String>, flags: Vec<bool> },
    /// Awaiting checksum resolution of the fidelity-bond descriptor texts.
    ResolvingFidelity { base: Vec<String>, descriptors: Vec<String>, flags: Vec<bool> },
    /// Awaiting completion of the batch import.
    Importing,
    /// Awaiting the current chain tip height.
    FetchingTip,
    /// Awaiting the outcome of a rescan over `[start, end]`.
    Scanning { start: u64, end: u64 },
    /// Awaiting the end of the fixed backoff after rescan contention.
    Backoff,
    /// Awaiting the next unused external-chain derivation index.
    FetchingIndex,
    /// The run completed.
    Done,
    /// The driver answered with an event the state cannot accept.
    Failed,
}

/// What the driver must do next against the ledger service.
pub enum SyncAction {
    /// List the currently loaded wallets.
    QueryLoadedWallets,
    /// List the wallets present on disk.
    QueryWalletDir,
    /// Query the service version.
    QueryVersion,
    /// Load the wallet named in the store.
    LoadWallet,
    /// Create the wallet through the legacy call (older services).
    CreateLegacyWallet,
    /// Create a watch-only, key-disabled descriptor wallet, passing the six
    /// creation flags positionally.
    CreateDescriptorWallet,
    /// Ask the wallet for its own not-yet-imported descriptors.
    QueryUnimportedWalletDescs,
    /// Resolve each descriptor text to its checksummed canonical form.
    ResolveDescriptors(Vec<String>),
    /// Report, for each descriptor, whether it is already imported.
    CheckImported(Vec<String>),
    /// Report, for each probe descriptor, whether its address is watch-only.
    ProbeWatchOnly(Vec<String>),
    /// Import the batch as watch-only, without rescan.
    ImportDescriptors(Vec<String>),
    /// Query the current chain tip height.
    QueryBlockCount,
    /// Rescan the chain over the inclusive height interval.
    Rescan(u64, u64),
    /// Sleep the fixed backoff interval.
    Wait,
    /// Query the highest used external-chain derivation index.
    QueryNextExternalIndex,
    /// Nothing further: the run is over.
    Finish,
}

/// The ledger service's answer to the previous action.
pub enum SyncEvent {
    /// Begin the run.
    Start,
    /// The currently loaded wallets.
    LoadedWallets(Vec<String>),
    /// The wallets present on disk.
    WalletDir(Vec<String>),
    /// The service version.
    Version(u64),
    /// The load- or create-wallet call completed.
    WalletReady,
    /// The wallet's own not-yet-imported descriptors, already canonical.
    UnimportedWalletDescs(Vec<String>),
    /// The canonical forms of the texts just submitted for resolution.
    Resolved(Vec<String>),
    /// The resolved descriptors paired with their imported flags.
    ImportedFlags { descriptors: Vec<String>, flags: Vec<bool> },
    /// The watch-only flag of each probed script.
    ProbeFlags(Vec<bool>),
    /// The batch import completed.
    Imported,
    /// The current chain tip height.
    BlockCount(u64),
    /// The rescan completed.
    RescanFinished,
    /// The rescan was rejected because another scan is running.
    RescanContention,
    /// The backoff interval elapsed.
    Waited,
    /// The highest used external-chain derivation index.
    NextExternalIndex(u32),
}

/// A watch-only wallet, synchronized against the ledger service by driving
/// [`Wallet::sync_step`] to `Done`.
pub struct Wallet {
    /// The wallet's persisted view.
    pub store: WalletStore,
}

/// Whether some name in the list reads as `target`.
pub open spec fn contains_str(names: Seq<String>, target: Seq<char>) -> bool {
    exists|i: int| 0 <= i < names.len() && names[i]@ == target
}

/// Whether every flag in the list is set.
pub open spec fn all_true(flags: Seq<bool>) -> bool {
    forall|i: int| 0 <= i < flags.len() ==> flags[i]
}

/// How many fidelity-bond scripts the import-status probe inspects.
pub open spec fn probe_count(n_bonds: nat) -> nat {
    if n_bonds == 0 {
        0nat
    } else if n_bonds == 1 {
        1nat
    } else {
        2nat
    }
}

/// The store after one transition.  Only two transitions write the store:
/// a finished rescan records the end height used for that successful call,
/// and the index answer advances the external-chain watermark.
pub open spec fn next_store(store: WalletStore, state: SyncState, event: SyncEvent) -> WalletStore {
    match (state, event) {
        (SyncState::Scanning { start: _, end }, SyncEvent::RescanFinished) => WalletStore {
            last_synced_height: Some(end),
            ..store
        },
        (SyncState::FetchingIndex, SyncEvent::NextExternalIndex(i)) => WalletStore {
            external_index: i,
            ..store
        },
        _ => store,
    }
}

/// The state after one transition.
pub open spec fn next_sync_state(
    store: WalletStore,
    state: SyncState,
    event: SyncEvent,
) -> SyncState {
    match (state, event) {
        (SyncState::Begin, SyncEvent::Start) => SyncState::CheckingLoaded,
        (SyncState::CheckingLoaded, SyncEvent::LoadedWallets(names)) => if contains_str(
            names@,
            store.file_name@,
        ) {
            SyncState::FetchingBaseDescs
        } else {
            SyncState::CheckingDir
        },
        (SyncState::CheckingDir, SyncEvent::WalletDir(names)) => if contains_str(
            names@,
            store.file_name@,
        ) {
            SyncState::PreparingWallet
        } else {
            SyncState::CheckingVersion
        },
        (SyncState::CheckingVersion, SyncEvent::Version(_)) => SyncState::PreparingWallet,
        (SyncState::PreparingWallet, SyncEvent::WalletReady) => SyncState::FetchingBaseDescs,
        (SyncState::FetchingBaseDescs, SyncEvent::UnimportedWalletDescs(base)) =>
            SyncState::ResolvingSwapDescs { base },
        (SyncState::ResolvingSwapDescs { base }, SyncEvent::Resolved(_)) =>
            SyncState::CheckingImported { base },
        (
            SyncState::CheckingImported { base },
            SyncEvent::ImportedFlags { descriptors, flags },
        ) => if flags@.len() != descriptors@.len() {
            SyncState::Failed
        } else if store.fidelity_bonds@.len() > 0 {
            SyncState::ProbingFidelity { base, descriptors, flags }
        } else if base@.len() == 0 && all_true(flags@) {
            SyncState::Done
        } else {
            SyncState::Importing
        },
        (
            SyncState::ProbingFidelity { base, descriptors, flags },
            SyncEvent::ProbeFlags(probe),
        ) => if flags@.len() != descriptors@.len() || probe@.len() != probe_count(
            store.fidelity_bonds@.len(),
        ) {
            SyncState::Failed
        } else if all_true(probe@) {
            if base@.len() == 0 && all_true(flags@) {
                SyncState::Done
            } else {
                SyncState::Importing
            }
        } else {
            SyncState::ResolvingFidelity { base, descriptors, flags }
        },
        (
            SyncState::ResolvingFidelity { base: _, descriptors, flags },
            SyncEvent::Resolved(_),
        ) => if flags@.len() != descriptors@.len() {
            SyncState::Failed
        } else {
            SyncState::Importing
        },
        (SyncState::Importing, SyncEvent::Imported) => SyncState::FetchingTip,
        (SyncState::FetchingTip, SyncEvent::BlockCount(tip)) => SyncState::Scanning {
            start: rescan_start_of(store),
            end: tip,
        },
        (SyncState::Scanning { .. }, SyncEvent::RescanFinished) => SyncState::FetchingIndex,
        (SyncState::Scanning { .. }, SyncEvent::RescanContention) => SyncState::Backoff,
        (SyncState::Backoff, SyncEvent::Waited) => SyncState::FetchingTip,
        (SyncState::FetchingIndex, SyncEvent::NextExternalIndex(_)) => SyncState::Done,
        (SyncState::Done, _) => SyncState::Done,
        (_, _) => SyncState::Failed,
    }
}

/// What the returned action must be, given the store, the state and the
/// event of one transition.
pub open spec fn action_ok(
    store: WalletStore,
    state: SyncState,
    event: SyncEvent,
    action: SyncAction,
) -> bool {
    match (state, event) {
        (SyncState::Begin, SyncEvent::Start) => action is QueryLoadedWallets,
        (SyncState::CheckingLoaded, SyncEvent::LoadedWallets(names)) => if contains_str(
            names@,
            store.file_name@,
        ) {
            action is QueryUnimportedWalletDescs
        } else {
            action is QueryWalletDir
        },
        (SyncState::CheckingDir, SyncEvent::WalletDir(names)) => if contains_str(
            names@,
            store.file_name@,
        ) {
            action is LoadWallet
        } else {
            action is QueryVersion
        },
        (SyncState::CheckingVersion, SyncEvent::Version(v)) => if v
            < DESCRIPTOR_WALLET_VERSION {
            action is CreateLegacyWallet
        } else {
            action is CreateDescriptorWallet
        },
        (SyncState::PreparingWallet, SyncEvent::WalletReady) =>
            action is QueryUnimportedWalletDescs,
        (SyncState::FetchingBaseDescs, SyncEvent::UnimportedWalletDescs(_)) => action matches
            SyncAction::ResolveDescriptors(ts) && ts.deep_view() == swap_texts_of(store),
        (SyncState::ResolvingSwapDescs { .. }, SyncEvent::Resolved(resolved)) => action matches
            SyncAction::CheckImported(ds) && ds@ == resolved@,
        (
            SyncState::CheckingImported { base },
            SyncEvent::ImportedFlags { descriptors, flags },
        ) => if flags@.len() != descriptors@.len() {
            action is Finish
        } else if store.fidelity_bonds@.len() > 0 {
            action matches SyncAction::ProbeWatchOnly(ts) && ts.deep_view() == probe_texts_of(
                store.fidelity_bonds@,
            )
        } else if base@.len() == 0 && all_true(flags@) {
            action is Finish
        } else {
            action matches SyncAction::ImportDescriptors(batch) && batch@ == base@
                + filter_unimported_spec(descriptors@, flags@)
        },
        (
            SyncState::ProbingFidelity { base, descriptors, flags },
            SyncEvent::ProbeFlags(probe),
        ) => if flags@.len() != descriptors@.len() || probe@.len() != probe_count(
            store.fidelity_bonds@.len(),
        ) {
            action is Finish
        } else if all_true(probe@) {
            if base@.len() == 0 && all_true(flags@) {
                action is Finish
            } else {
                action matches SyncAction::ImportDescriptors(batch) && batch@ == base@
                    + filter_unimported_spec(descriptors@, flags@)
            }
        } else {
            action matches SyncAction::ResolveDescriptors(ts) && ts.deep_view()
                == fidelity_texts_of(store.fidelity_bonds@)
        },
        (
            SyncState::ResolvingFidelity { base, descriptors, flags },
            SyncEvent::Resolved(fid),
        ) => if flags@.len() != descriptors@.len() {
            action is Finish
        } else {
            action matches SyncAction::ImportDescriptors(batch) && batch@ == base@
                + filter_unimported_spec(descriptors@, flags@) + fid@
        },
        (SyncState::Importing, SyncEvent::Imported) => action is QueryBlockCount,
        (SyncState::FetchingTip, SyncEvent::BlockCount(tip)) => action == SyncAction::Rescan(
            rescan_start_of(store),
            tip,
        ),
        (SyncState::Scanning { .. }, SyncEvent::RescanFinished) =>
            action is QueryNextExternalIndex,
        (SyncState::Scanning { .. }, SyncEvent::RescanContention) => action is Wait,
        (SyncState::Backoff, SyncEvent::Waited) => action is QueryBlockCount,
        (SyncState::FetchingIndex, SyncEvent::NextExternalIndex(_)) => action is Finish,
        (_, _) => action is Finish,
    }
}

/// Whether some name in the list equals the target.
fn contains_name(names: &Vec<String>, target: &String) -> (r: bool)
    ensures
        r == contains_str(names@, target@),
{
    let mut i: usize = 0;
    while i < names.len()
        invariant
            i <= names@.len(),
            forall|j: int| 0 <= j < i ==> names@[j]@ != target@,
        decreases names@.len() - i,
    {
        if names[i] == *target {
            return true;
        }
        i = i + 1;
    }
    false
}

/// Whether every flag in the list is set.
fn all_flags_true(flags: &Vec<bool>) -> (r: bool)
    ensures
        r == all_true(flags@),
{
    let mut i: usize = 0;
    while i < flags.len()
        invariant
            i <= flags@.len(),
            forall|j: int| 0 <= j < i ==> flags@[j],
        decreases flags@.len() - i,
    {
        if !flags[i] {
            return false;
        }
        i = i + 1;
    }
    true
}

/// How many fidelity-bond scripts the probe inspects, as a count.
fn probe_count_of(bonds_len: usize) -> (r: usize)
    ensures
        r == probe_count(bonds_len as nat),
{
    if bonds_len == 0 {
        0
    } else if bonds_len == 1 {
        1
    } else {
        2
    }
}

impl Wallet {
    /// One transition of the sync run: consumes the service's answer to the
    /// previous action and decides the next state and the next action.
    pub fn sync_step(&mut self, state: SyncState, event: SyncEvent) -> (r: (
        SyncState,
        SyncAction,
    ))
        ensures
            final(self).store == next_store(old(self).store, state, event),
            r.0 == next_sync_state(old(self).store, state, event),
            action_ok(old(self).store, state, event, r.1),
    {
        match (state, event) {
            (SyncState::Begin, SyncEvent::Start) => (
                SyncState::CheckingLoaded,
                SyncAction::QueryLoadedWallets,
            ),
            (SyncState::CheckingLoaded, SyncEvent::LoadedWallets(names)) => {
                if contains_name(&names, &self.store.file_name) {
                    (SyncState::FetchingBaseDescs, SyncAction::QueryUnimportedWalletDescs)
                } else {
                    (SyncState::CheckingDir, SyncAction::QueryWalletDir)
                }
            },
            (SyncState::CheckingDir, SyncEvent::WalletDir(names)) => {
                if contains_name(&names, &self.store.file_name) {
                    (SyncState::PreparingWallet, SyncAction::LoadWallet)
                } else {
                    (SyncState::CheckingVersion, SyncAction::QueryVersion)
                }
            },
            (SyncState::CheckingVersion, SyncEvent::Version(v)) => {
                if v < DESCRIPTOR_WALLET_VERSION {
                    (SyncState::PreparingWallet, SyncAction::CreateLegacyWallet)
                } else {
                    (SyncState::PreparingWallet, SyncAction::CreateDescriptorWallet)
                }
            },
            (SyncState::PreparingWallet, SyncEvent::WalletReady) => (
                SyncState::FetchingBaseDescs,
                SyncAction::QueryUnimportedWalletDescs,
            ),
            (SyncState::FetchingBaseDescs, SyncEvent::UnimportedWalletDescs(base)) => {
                let texts = swap_descriptor_texts(&self.store);
                (
                    SyncState::ResolvingSwapDescs { base },
                    SyncAction::ResolveDescriptors(texts),
                )
            },
            (SyncState::ResolvingSwapDescs { base }, SyncEvent::Resolved(resolved)) => (
                SyncState::CheckingImported { base },
                SyncAction::CheckImported(resolved),
            ),
            (
                SyncState::CheckingImported { base },
                SyncEvent::ImportedFlags { descriptors, flags },
            ) => {
                if flags.len() != descriptors.len() {
                    (SyncState::Failed, SyncAction::Finish)
                } else if self.store.fidelity_bonds.len() > 0 {
                    let texts = probe_descriptor_texts(&self.store.fidelity_bonds);
                    (
                        SyncState::ProbingFidelity { base, descriptors, flags },
                        SyncAction::ProbeWatchOnly(texts),
                    )
                } else if base.len() == 0 && all_flags_true(&flags) {
                    (SyncState::Done, SyncAction::Finish)
                } else {
                    let mut batch = base;
                    push_unimported(&mut batch, &descriptors, &flags);
                    (SyncState::Importing, SyncAction::ImportDescriptors(batch))
                }
            },
            (
                SyncState::ProbingFidelity { base, descriptors, flags },
                SyncEvent::ProbeFlags(probe),
            ) => {
                if flags.len() != descriptors.len() || probe.len() != probe_count_of(
                    self.store.fidelity_bonds.len(),
                ) {
                    (SyncState::Failed, SyncAction::Finish)
                } else if all_flags_true(&probe) {
                    if base.len() == 0 && all_flags_true(&flags) {
                        (SyncState::Done, SyncAction::Finish)
                    } else {
                        let mut batch = base;
                        push_unimported(&mut batch, &descriptors, &flags);
                        (SyncState::Importing, SyncAction::ImportDescriptors(batch))
                    }
                } else {
                    let texts = fidelity_descriptor_texts(&self.store.fidelity_bonds);
                    (
                        SyncState::ResolvingFidelity { base, descriptors, flags },
                        SyncAction::ResolveDescriptors(texts),
                    )
                }
            },
            (
                SyncState::ResolvingFidelity { base, descriptors, flags },
                SyncEvent::Resolved(fid),
            ) => {
                if flags.len() != descriptors.len() {
                    (SyncState::Failed, SyncAction::Finish)
                } else {
                    let mut batch = base;
                    push_unimported(&mut batch, &descriptors, &flags);
                    crate::catalog::append_all(&mut batch, &fid);
                    (SyncState::Importing, SyncAction::ImportDescriptors(batch))
                }
            },
            (SyncState::Importing, SyncEvent::Imported) => (
                SyncState::FetchingTip,
                SyncAction::QueryBlockCount,
            ),
            (SyncState::FetchingTip, SyncEvent::BlockCount(tip)) => {
                let start = rescan_start_height(&self.store);
                (SyncState::Scanning { start, end: tip }, SyncAction::Rescan(start, tip))
            },
            (SyncState::Scanning { start: _, end }, SyncEvent::RescanFinished) => {
                self.store.last_synced_height = Some(end);
                (SyncState::FetchingIndex, SyncAction::QueryNextExternalIndex)
            },
            (SyncState::Scanning { .. }, SyncEvent::RescanContention) => (
                SyncState::Backoff,
                SyncAction::Wait,
            ),
            (SyncState::Backoff, SyncEvent::Waited) => (
                SyncState::FetchingTip,
                SyncAction::QueryBlockCount,
            ),
            (SyncState::FetchingIndex, SyncEvent::NextExternalIndex(i)) => {
                self.store.external_index = i;
                (SyncState::Done, SyncAction::Finish)
            },
            (SyncState::Done, _) => (SyncState::Done, SyncAction::Finish),
            (_, _) => (SyncState::Failed, SyncAction::Finish),
        }
    }
}

} // verus!
