use wallet_sync::catalog::push_unimported;
use wallet_sync::machine::{SyncAction, SyncEvent, SyncState, Wallet};
use wallet_sync::store::{FidelityBond, SwapCoin, WalletStore};

fn empty_store() -> WalletStore {
    WalletStore {
        file_name: "teleport".to_string(),
        incoming_swapcoins: vec![],
        outgoing_swapcoins: vec![],
        fidelity_bonds: vec![],
        last_synced_height: None,
        wallet_birthday: None,
        external_index: 0,
    }
}

fn swapcoin(other: &str, my: &str, redeemscript: Vec<u8>) -> SwapCoin {
    SwapCoin {
        other_pubkey: other.to_string(),
        my_pubkey: my.to_string(),
        contract_redeemscript: redeemscript,
    }
}

#[test]
fn wallet_already_loaded_skips_bootstrap() {
    let mut w = Wallet { store: empty_store() };
    let (st, act) = w.sync_step(SyncState::Begin, SyncEvent::Start);
    assert!(matches!(st, SyncState::CheckingLoaded));
    assert!(matches!(act, SyncAction::QueryLoadedWallets));
    let (st, act) = w.sync_step(st, SyncEvent::LoadedWallets(vec!["teleport".to_string()]));
    assert!(matches!(st, SyncState::FetchingBaseDescs));
    assert!(matches!(act, SyncAction::QueryUnimportedWalletDescs));
}

#[test]
fn wallet_on_disk_is_loaded() {
    let mut w = Wallet { store: empty_store() };
    let (st, _) = w.sync_step(SyncState::Begin, SyncEvent::Start);
    let (st, act) = w.sync_step(st, SyncEvent::LoadedWallets(vec!["other".to_string()]));
    assert!(matches!(act, SyncAction::QueryWalletDir));
    let (st, act) = w.sync_step(st, SyncEvent::WalletDir(vec!["teleport".to_string()]));
    assert!(matches!(st, SyncState::PreparingWallet));
    assert!(matches!(act, SyncAction::LoadWallet));
}

#[test]
fn old_service_creates_legacy_wallet() {
    let mut w = Wallet { store: empty_store() };
    let (st, act) = w.sync_step(SyncState::CheckingDir, SyncEvent::WalletDir(vec![]));
    assert!(matches!(act, SyncAction::QueryVersion));
    let (st, act) = w.sync_step(st, SyncEvent::Version(209999));
    assert!(matches!(st, SyncState::PreparingWallet));
    assert!(matches!(act, SyncAction::CreateLegacyWallet));
}

#[test]
fn new_service_creates_descriptor_wallet() {
    let mut w = Wallet { store: empty_store() };
    let (st, _) = w.sync_step(SyncState::CheckingDir, SyncEvent::WalletDir(vec![]));
    let (st, act) = w.sync_step(st, SyncEvent::Version(210000));
    assert!(matches!(st, SyncState::PreparingWallet));
    assert!(matches!(act, SyncAction::CreateDescriptorWallet));
}

#[test]
fn empty_state_short_circuits_without_import_or_rescan() {
    let mut w = Wallet { store: empty_store() };
    let (st, act) = w.sync_step(
        SyncState::FetchingBaseDescs,
        SyncEvent::UnimportedWalletDescs(vec![]),
    );
    match &act {
        SyncAction::ResolveDescriptors(ts) => assert!(ts.is_empty()),
        _ => panic!("expected descriptor resolution"),
    }
    let (st, act) = w.sync_step(st, SyncEvent::Resolved(vec![]));
    match &act {
        SyncAction::CheckImported(ds) => assert!(ds.is_empty()),
        _ => panic!("expected imported-status check"),
    }
    let (st, act) = w.sync_step(
        st,
        SyncEvent::ImportedFlags { descriptors: vec![], flags: vec![] },
    );
    assert!(matches!(st, SyncState::Done));
    assert!(matches!(act, SyncAction::Finish));
    assert_eq!(w.store.last_synced_height, None);
}

#[test]
fn second_sync_with_nothing_new_is_idempotent() {
    // Everything the first run imported is reported as imported again: the
    // run ends with no import and no rescan, and the store keeps its height.
    let mut store = empty_store();
    store.incoming_swapcoins = vec![swapcoin("aa", "bb", vec![0x51])];
    store.last_synced_height = Some(120);
    let mut w = Wallet { store };
    let (st, _) = w.sync_step(
        SyncState::FetchingBaseDescs,
        SyncEvent::UnimportedWalletDescs(vec![]),
    );
    let resolved = vec!["d1#x".to_string(), "d2#y".to_string()];
    let (st, _) = w.sync_step(st, SyncEvent::Resolved(resolved.clone()));
    let (st, act) = w.sync_step(
        st,
        SyncEvent::ImportedFlags { descriptors: resolved, flags: vec![true, true] },
    );
    assert!(matches!(st, SyncState::Done));
    assert!(matches!(act, SyncAction::Finish));
    assert_eq!(w.store.last_synced_height, Some(120));
}

#[test]
fn swap_descriptors_are_derived_in_catalog_order() {
    let mut store = empty_store();
    store.incoming_swapcoins = vec![swapcoin("aa", "bb", vec![0x61, 0x62, 0x63])];
    store.outgoing_swapcoins = vec![swapcoin("cc", "dd", vec![])];
    let mut w = Wallet { store };
    let (_, act) = w.sync_step(
        SyncState::FetchingBaseDescs,
        SyncEvent::UnimportedWalletDescs(vec![]),
    );
    match act {
        SyncAction::ResolveDescriptors(ts) => {
            assert_eq!(ts.len(), 4);
            assert_eq!(ts[0], "wsh(sortedmulti(2,aa,bb))");
            assert_eq!(ts[1], "wsh(sortedmulti(2,cc,dd))");
            assert_eq!(
                ts[2],
                "raw(0020ba7816bf8f01cfea414140de5dae2223b00361a396177a9cb410ff61f20015ad)"
            );
            assert_eq!(
                ts[3],
                "raw(0020e3b0c44298fc1c149afbf4c8996fb92427ae41e4649b934ca495991b7852b855)"
            );
        }
        _ => panic!("expected descriptor resolution"),
    }
}

#[test]
fn unimported_descriptors_are_batched_and_rescan_runs() {
    let mut store = empty_store();
    store.incoming_swapcoins = vec![swapcoin("aa", "bb", vec![])];
    let mut w = Wallet { store };
    let (st, _) = w.sync_step(
        SyncState::FetchingBaseDescs,
        SyncEvent::UnimportedWalletDescs(vec!["base#1".to_string()]),
    );
    let resolved = vec!["m1#a".to_string(), "r1#b".to_string()];
    let (st, _) = w.sync_step(st, SyncEvent::Resolved(resolved.clone()));
    let (st, act) = w.sync_step(
        st,
        SyncEvent::ImportedFlags { descriptors: resolved, flags: vec![true, false] },
    );
    assert!(matches!(st, SyncState::Importing));
    match act {
        SyncAction::ImportDescriptors(batch) => {
            assert_eq!(batch, vec!["base#1".to_string(), "r1#b".to_string()]);
        }
        _ => panic!("expected an import"),
    }
    let (st, act) = w.sync_step(st, SyncEvent::Imported);
    assert!(matches!(act, SyncAction::QueryBlockCount));
    let (st, act) = w.sync_step(st, SyncEvent::BlockCount(100));
    assert!(matches!(act, SyncAction::Rescan(0, 100)));
    let (st, act) = w.sync_step(st, SyncEvent::RescanFinished);
    assert!(matches!(act, SyncAction::QueryNextExternalIndex));
    assert_eq!(w.store.last_synced_height, Some(100));
    let (st, act) = w.sync_step(st, SyncEvent::NextExternalIndex(7));
    assert!(matches!(st, SyncState::Done));
    assert!(matches!(act, SyncAction::Finish));
    assert_eq!(w.store.external_index, 7);
}

#[test]
fn rescan_contention_retries_with_fresh_tip() {
    // Contention twice, then success: two backoff waits, and the recorded
    // height is the tip read before the successful attempt.
    let mut store = empty_store();
    store.last_synced_height = Some(50);
    store.wallet_birthday = Some(10);
    let mut w = Wallet { store };
    let (st, act) = w.sync_step(SyncState::Importing, SyncEvent::Imported);
    assert!(matches!(act, SyncAction::QueryBlockCount));
    let (st, act) = w.sync_step(st, SyncEvent::BlockCount(60));
    assert!(matches!(act, SyncAction::Rescan(50, 60)));
    let (st, act) = w.sync_step(st, SyncEvent::RescanContention);
    assert!(matches!(act, SyncAction::Wait));
    let (st, act) = w.sync_step(st, SyncEvent::Waited);
    assert!(matches!(act, SyncAction::QueryBlockCount));
    let (st, act) = w.sync_step(st, SyncEvent::BlockCount(61));
    assert!(matches!(act, SyncAction::Rescan(50, 61)));
    let (st, act) = w.sync_step(st, SyncEvent::RescanContention);
    assert!(matches!(act, SyncAction::Wait));
    let (st, act) = w.sync_step(st, SyncEvent::Waited);
    let (st, act) = w.sync_step(st, SyncEvent::BlockCount(63));
    assert!(matches!(act, SyncAction::Rescan(50, 63)));
    let (_, act) = w.sync_step(st, SyncEvent::RescanFinished);
    assert!(matches!(act, SyncAction::QueryNextExternalIndex));
    assert_eq!(w.store.last_synced_height, Some(63));
    assert!(w.store.last_synced_height.unwrap() >= 50);
}

#[test]
fn fidelity_probe_inspects_first_and_last_bond() {
    let mut store = empty_store();
    store.fidelity_bonds = vec![
        FidelityBond { script_pub_key: vec![0x00] },
        FidelityBond { script_pub_key: vec![0x01] },
        FidelityBond { script_pub_key: vec![0x02] },
    ];
    let mut w = Wallet { store };
    let (st, _) = w.sync_step(
        SyncState::FetchingBaseDescs,
        SyncEvent::UnimportedWalletDescs(vec![]),
    );
    let (st, _) = w.sync_step(st, SyncEvent::Resolved(vec![]));
    let (st, act) = w.sync_step(
        st,
        SyncEvent::ImportedFlags { descriptors: vec![], flags: vec![] },
    );
    assert!(matches!(st, SyncState::ProbingFidelity { .. }));
    match act {
        SyncAction::ProbeWatchOnly(ts) => {
            assert_eq!(ts, vec!["raw(00)".to_string(), "raw(02)".to_string()]);
        }
        _ => panic!("expected the watch-only probe"),
    }
}

#[test]
fn single_bond_probes_only_once() {
    let mut store = empty_store();
    store.fidelity_bonds = vec![FidelityBond { script_pub_key: vec![0xab] }];
    let mut w = Wallet { store };
    let (_, act) = w.sync_step(
        SyncState::CheckingImported { base: vec![] },
        SyncEvent::ImportedFlags { descriptors: vec![], flags: vec![] },
    );
    match act {
        SyncAction::ProbeWatchOnly(ts) => assert_eq!(ts, vec!["raw(ab)".to_string()]),
        _ => panic!("expected the watch-only probe"),
    }
}

#[test]
fn watchonly_probe_short_circuits_bond_imports() {
    let mut store = empty_store();
    store.fidelity_bonds = vec![
        FidelityBond { script_pub_key: vec![0x00] },
        FidelityBond { script_pub_key: vec![0x01] },
    ];
    let mut w = Wallet { store };
    let (st, _) = w.sync_step(
        SyncState::CheckingImported { base: vec![] },
        SyncEvent::ImportedFlags { descriptors: vec![], flags: vec![] },
    );
    let (st, act) = w.sync_step(st, SyncEvent::ProbeFlags(vec![true, true]));
    assert!(matches!(st, SyncState::Done));
    assert!(matches!(act, SyncAction::Finish));
}

#[test]
fn unimported_bonds_are_resolved_and_batched_in_full() {
    let mut store = empty_store();
    store.fidelity_bonds = vec![
        FidelityBond { script_pub_key: vec![0x00] },
        FidelityBond { script_pub_key: vec![0x01] },
    ];
    let mut w = Wallet { store };
    let (st, _) = w.sync_step(
        SyncState::CheckingImported { base: vec!["base#1".to_string()] },
        SyncEvent::ImportedFlags { descriptors: vec![], flags: vec![] },
    );
    let (st, act) = w.sync_step(st, SyncEvent::ProbeFlags(vec![true, false]));
    assert!(matches!(st, SyncState::ResolvingFidelity { .. }));
    match act {
        SyncAction::ResolveDescriptors(ts) => {
            assert_eq!(ts, vec!["raw(00)".to_string(), "raw(01)".to_string()]);
        }
        _ => panic!("expected descriptor resolution"),
    }
    let (st, act) = w.sync_step(
        st,
        SyncEvent::Resolved(vec!["f1#a".to_string(), "f2#b".to_string()]),
    );
    assert!(matches!(st, SyncState::Importing));
    match act {
        SyncAction::ImportDescriptors(batch) => {
            assert_eq!(
                batch,
                vec!["base#1".to_string(), "f1#a".to_string(), "f2#b".to_string()]
            );
        }
        _ => panic!("expected an import"),
    }
}

#[test]
fn already_imported_descriptor_never_reappears_in_batch() {
    let descs = vec!["a#1".to_string(), "b#2".to_string(), "a#1".to_string()];
    let flags = vec![true, false, true];
    let mut batch: Vec<String> = vec![];
    push_unimported(&mut batch, &descs, &flags);
    assert_eq!(batch, vec!["b#2".to_string()]);
    assert!(!batch.contains(&"a#1".to_string()));
}

#[test]
fn mismatched_answer_fails_the_run() {
    let mut w = Wallet { store: empty_store() };
    let (st, act) = w.sync_step(SyncState::Begin, SyncEvent::Imported);
    assert!(matches!(st, SyncState::Failed));
    assert!(matches!(act, SyncAction::Finish));
}

#[test]
fn done_is_terminal() {
    let mut w = Wallet { store: empty_store() };
    let (st, act) = w.sync_step(SyncState::Done, SyncEvent::BlockCount(5));
    assert!(matches!(st, SyncState::Done));
    assert!(matches!(act, SyncAction::Finish));
    assert_eq!(w.store.last_synced_height, None);
}
