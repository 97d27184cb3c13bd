//! Laws of the sync machine: runs over event sequences, the short-circuit
//! and idempotence guarantees, height monotonicity, and retry convergence.

use vstd::prelude::*;

use crate::machine::{
    action_ok, all_true, contains_str, next_store, next_sync_state, probe_count, SyncAction,
    SyncEvent, SyncState,
};
use crate::store::{rescan_start_of, WalletStore};

verus! {

/// The store and state after feeding a sequence of events to the machine,
/// one transition per event.
pub open spec fn run_from(store: WalletStore, state: SyncState, events: Seq<SyncEvent>) -> (
    WalletStore,
    SyncState,
)
    decreases events.len(),
{
    if events.len() == 0 {
        (store, state)
    } else {
        run_from(
            next_store(store, state, events[0]),
            next_sync_state(store, state, events[0]),
            events.drop_first(),
        )
    }
}

/// Running over a concatenation is running over the parts in turn.
pub proof fn lemma_run_append(
    store: WalletStore,
    state: SyncState,
    a: Seq<SyncEvent>,
    b: Seq<SyncEvent>,
)
    ensures
        run_from(store, state, a + b) == run_from(
            run_from(store, state, a).0,
            run_from(store, state, a).1,
            b,
        ),
    decreases a.len(),
{
    if a.len() == 0 {
        assert(a + b =~= b);
    } else {
        assert((a + b)[0] == a[0]);
        assert((a + b).drop_first() =~= a.drop_first() + b);
        lemma_run_append(
            next_store(store, state, a[0]),
            next_sync_state(store, state, a[0]),
            a.drop_first(),
            b,
        );
    }
}

/// Whether an action asks the ledger service for an import or a rescan.
pub open spec fn imports_or_rescans(action: SyncAction) -> bool {
    action matches SyncAction::ImportDescriptors(_) || action matches SyncAction::Rescan(_, _)
}

/// `Done` is terminal: no event moves the machine out of it, changes the
/// store, or makes it ask for anything further.
pub proof fn lemma_done_terminal(store: WalletStore, event: SyncEvent, action: SyncAction)
    requires
        action_ok(store, SyncState::Done, event, action),
    ensures
        next_sync_state(store, SyncState::Done, event) == SyncState::Done,
        next_store(store, SyncState::Done, event) == store,
        action is Finish,
{
}

/// Empty-state short-circuit: when the wallet has no fidelity bonds, the
/// service reports no unimported wallet descriptors and marks every
/// resolved swap descriptor as already imported, the catalog step ends the
/// run at once — the machine goes to `Done`, leaves the store untouched,
/// and asks for no import and no rescan.
pub proof fn lemma_empty_state_short_circuit(
    store: WalletStore,
    base: Vec<String>,
    descriptors: Vec<String>,
    flags: Vec<bool>,
    action: SyncAction,
)
    requires
        base@.len() == 0,
        flags@.len() == descriptors@.len(),
        all_true(flags@),
        store.fidelity_bonds@.len() == 0,
        action_ok(
            store,
            SyncState::CheckingImported { base },
            SyncEvent::ImportedFlags { descriptors, flags },
            action,
        ),
    ensures
        next_sync_state(
            store,
            SyncState::CheckingImported { base },
            SyncEvent::ImportedFlags { descriptors, flags },
        ) == SyncState::Done,
        next_store(
            store,
            SyncState::CheckingImported { base },
            SyncEvent::ImportedFlags { descriptors, flags },
        ) == store,
        action is Finish,
{
}

/// The same short-circuit through the fidelity probe: with bonds present
/// but both probed scripts already watch-only, and nothing else to import,
/// the probe step ends the run with no import and no rescan.
pub proof fn lemma_probe_short_circuit(
    store: WalletStore,
    base: Vec<String>,
    descriptors: Vec<String>,
    flags: Vec<bool>,
    probe: Vec<bool>,
    action: SyncAction,
)
    requires
        base@.len() == 0,
        flags@.len() == descriptors@.len(),
        all_true(flags@),
        store.fidelity_bonds@.len() > 0,
        probe@.len() == probe_count(store.fidelity_bonds@.len()),
        all_true(probe@),
        action_ok(
            store,
            SyncState::ProbingFidelity { base, descriptors, flags },
            SyncEvent::ProbeFlags(probe),
            action,
        ),
    ensures
        next_sync_state(
            store,
            SyncState::ProbingFidelity { base, descriptors, flags },
            SyncEvent::ProbeFlags(probe),
        ) == SyncState::Done,
        next_store(
            store,
            SyncState::ProbingFidelity { base, descriptors, flags },
            SyncEvent::ProbeFlags(probe),
        ) == store,
        action is Finish,
{
}

/// Idempotence of a repeated sync: when the wallet is already loaded and
/// the service has nothing new — no unimported wallet descriptors, every
/// swap descriptor already imported, the fidelity probe (when bonds exist)
/// watch-only — the whole run reaches `Done` with the store unchanged, and
/// no transition along the way asks for an import or a rescan.
pub proof fn lemma_second_sync_idempotent(
    store: WalletStore,
    loaded: Vec<String>,
    base: Vec<String>,
    resolved: Vec<String>,
    flags: Vec<bool>,
    probe: Vec<bool>,
)
    requires
        contains_str(loaded@, store.file_name@),
        base@.len() == 0,
        flags@.len() == resolved@.len(),
        all_true(flags@),
        probe@.len() == probe_count(store.fidelity_bonds@.len()),
        all_true(probe@),
    ensures
        ({
            let ev0 = SyncEvent::Start;
            let ev05 = SyncEvent::LoadedWallets(loaded);
            let ev1 = SyncEvent::UnimportedWalletDescs(base);
            let ev2 = SyncEvent::Resolved(resolved);
            let ev3 = SyncEvent::ImportedFlags { descriptors: resolved, flags };
            let ev4 = SyncEvent::ProbeFlags(probe);
            let events = if store.fidelity_bonds@.len() == 0 {
                seq![ev0, ev05, ev1, ev2, ev3]
            } else {
                seq![ev0, ev05, ev1, ev2, ev3, ev4]
            };
            run_from(store, SyncState::Begin, events) == (store, SyncState::Done)
        }),
        forall|a: SyncAction|
            action_ok(store, SyncState::Begin, SyncEvent::Start, a) ==> !imports_or_rescans(a),
        forall|a: SyncAction|
            action_ok(store, SyncState::CheckingLoaded, SyncEvent::LoadedWallets(loaded), a)
                ==> !imports_or_rescans(a),
        forall|a: SyncAction|
            action_ok(
                store,
                SyncState::FetchingBaseDescs,
                SyncEvent::UnimportedWalletDescs(base),
                a,
            ) ==> !imports_or_rescans(a),
        forall|a: SyncAction|
            action_ok(
                store,
                SyncState::ResolvingSwapDescs { base },
                SyncEvent::Resolved(resolved),
                a,
            ) ==> !imports_or_rescans(a),
        forall|a: SyncAction|
            action_ok(
                store,
                SyncState::CheckingImported { base },
                SyncEvent::ImportedFlags { descriptors: resolved, flags },
                a,
            ) ==> !imports_or_rescans(a),
        forall|a: SyncAction|
            action_ok(
                store,
                SyncState::ProbingFidelity { base, descriptors: resolved, flags },
                SyncEvent::ProbeFlags(probe),
                a,
            ) ==> !imports_or_rescans(a),
{
    reveal_with_fuel(run_from, 8);
    let ev0 = SyncEvent::Start;
    let ev05 = SyncEvent::LoadedWallets(loaded);
    let ev1 = SyncEvent::UnimportedWalletDescs(base);
    let ev2 = SyncEvent::Resolved(resolved);
    let ev3 = SyncEvent::ImportedFlags { descriptors: resolved, flags };
    let ev4 = SyncEvent::ProbeFlags(probe);
    let st0 = SyncState::Begin;
    let st05 = SyncState::CheckingLoaded;
    let st1 = SyncState::FetchingBaseDescs;
    let st2 = SyncState::ResolvingSwapDescs { base };
    let st3 = SyncState::CheckingImported { base };
    assert(next_sync_state(store, st0, ev0) == st05);
    assert(next_store(store, st0, ev0) == store);
    assert(next_sync_state(store, st05, ev05) == st1);
    assert(next_store(store, st05, ev05) == store);
    assert(next_sync_state(store, st1, ev1) == st2);
    assert(next_store(store, st1, ev1) == store);
    assert(next_sync_state(store, st2, ev2) == st3);
    assert(next_store(store, st2, ev2) == store);
    if store.fidelity_bonds@.len() == 0 {
        let events = seq![ev0, ev05, ev1, ev2, ev3];
        assert(next_sync_state(store, st3, ev3) == SyncState::Done);
        assert(next_store(store, st3, ev3) == store);
        assert(events.drop_first() =~= seq![ev05, ev1, ev2, ev3]);
        assert(seq![ev05, ev1, ev2, ev3].drop_first() =~= seq![ev1, ev2, ev3]);
        assert(seq![ev1, ev2, ev3].drop_first() =~= seq![ev2, ev3]);
        assert(seq![ev2, ev3].drop_first() =~= seq![ev3]);
        assert(seq![ev3].drop_first() =~= Seq::<SyncEvent>::empty());
        assert(run_from(store, st0, events) == (store, SyncState::Done));
    } else {
        let st4 = SyncState::ProbingFidelity { base, descriptors: resolved, flags };
        let events = seq![ev0, ev05, ev1, ev2, ev3, ev4];
        assert(next_sync_state(store, st3, ev3) == st4);
        assert(next_store(store, st3, ev3) == store);
        assert(next_sync_state(store, st4, ev4) == SyncState::Done);
        assert(next_store(store, st4, ev4) == store);
        assert(events.drop_first() =~= seq![ev05, ev1, ev2, ev3, ev4]);
        assert(seq![ev05, ev1, ev2, ev3, ev4].drop_first() =~= seq![ev1, ev2, ev3, ev4]);
        assert(seq![ev1, ev2, ev3, ev4].drop_first() =~= seq![ev2, ev3, ev4]);
        assert(seq![ev2, ev3, ev4].drop_first() =~= seq![ev3, ev4]);
        assert(seq![ev3, ev4].drop_first() =~= seq![ev4]);
        assert(seq![ev4].drop_first() =~= Seq::<SyncEvent>::empty());
        assert(run_from(store, st0, events) == (store, SyncState::Done));
    }
}

/// The height the store records as already scanned, zero when none is.
pub open spec fn recorded_height(store: WalletStore) -> u64 {
    match store.last_synced_height {
        Some(h) => h,
        None => 0u64,
    }
}

/// Monotonicity: no transition lowers the recorded sync height, provided a
/// finished rescan's end height is not below it — the tip the driver reads
/// before a scan only grows across runs.
pub proof fn lemma_height_monotone(store: WalletStore, state: SyncState, event: SyncEvent)
    requires
        (match (state, event) {
            (SyncState::Scanning { start: _, end }, SyncEvent::RescanFinished) =>
                recorded_height(store) <= end,
            _ => true,
        }),
    ensures
        recorded_height(store) <= recorded_height(next_store(store, state, event)),
{
}

/// The events of a rescan phase that hits contention exactly `n` times and
/// then succeeds: before each attempt the driver reads the chain tip
/// (`tips[k]` before attempt `k`), each contention is followed by the
/// backoff wait, and the last attempt finishes.
pub open spec fn contention_then_success(n: nat, tips: Seq<u64>) -> Seq<SyncEvent>
    decreases n,
{
    if n == 0 {
        seq![SyncEvent::BlockCount(tips[0]), SyncEvent::RescanFinished]
    } else {
        seq![
            SyncEvent::BlockCount(tips[0]),
            SyncEvent::RescanContention,
            SyncEvent::Waited,
        ] + contention_then_success((n - 1) as nat, tips.drop_first())
    }
}

/// Retry convergence: from the tip query, a rescan phase with exactly `n`
/// contentions followed by one success drives the machine through `n`
/// backoff waits to the index query, and records as the new sync height the
/// tip read before the successful attempt.
pub proof fn lemma_retry_convergence(store: WalletStore, n: nat, tips: Seq<u64>)
    requires
        tips.len() == n + 1,
    ensures
        run_from(store, SyncState::FetchingTip, contention_then_success(n, tips)).1
            == SyncState::FetchingIndex,
        run_from(store, SyncState::FetchingTip, contention_then_success(n, tips)).0 == (
        WalletStore { last_synced_height: Some(tips[n as int]), ..store }),
    decreases n,
{
    reveal_with_fuel(run_from, 5);
    let events = contention_then_success(n, tips);
    let scanning = SyncState::Scanning { start: rescan_start_of(store), end: tips[0] };
    assert(next_sync_state(store, SyncState::FetchingTip, SyncEvent::BlockCount(tips[0]))
        == scanning);
    assert(next_store(store, SyncState::FetchingTip, SyncEvent::BlockCount(tips[0])) == store);
    if n == 0 {
        assert(events == seq![SyncEvent::BlockCount(tips[0]), SyncEvent::RescanFinished]);
        assert(next_sync_state(store, scanning, SyncEvent::RescanFinished)
            == SyncState::FetchingIndex);
        assert(next_store(store, scanning, SyncEvent::RescanFinished) == WalletStore {
            last_synced_height: Some(tips[0]),
            ..store
        });
        assert(events.drop_first() =~= seq![SyncEvent::RescanFinished]);
        assert(seq![SyncEvent::RescanFinished].drop_first() =~= Seq::<SyncEvent>::empty());
        assert(run_from(store, SyncState::FetchingTip, events) == (
            WalletStore { last_synced_height: Some(tips[0]), ..store },
            SyncState::FetchingIndex,
        ));
    } else {
        let head = seq![
            SyncEvent::BlockCount(tips[0]),
            SyncEvent::RescanContention,
            SyncEvent::Waited,
        ];
        let rest = contention_then_success((n - 1) as nat, tips.drop_first());
        assert(events == head + rest);
        assert(next_sync_state(store, scanning, SyncEvent::RescanContention)
            == SyncState::Backoff);
        assert(next_store(store, scanning, SyncEvent::RescanContention) == store);
        assert(next_sync_state(store, SyncState::Backoff, SyncEvent::Waited)
            == SyncState::FetchingTip);
        assert(next_store(store, SyncState::Backoff, SyncEvent::Waited) == store);
        assert(head.drop_first() =~= seq![SyncEvent::RescanContention, SyncEvent::Waited]);
        assert(seq![SyncEvent::RescanContention, SyncEvent::Waited].drop_first() =~= seq![
            SyncEvent::Waited,
        ]);
        assert(seq![SyncEvent::Waited].drop_first() =~= Seq::<SyncEvent>::empty());
        assert(run_from(store, SyncState::FetchingTip, head) == (
            store,
            SyncState::FetchingTip,
        ));
        lemma_run_append(store, SyncState::FetchingTip, head, rest);
        lemma_retry_convergence(store, (n - 1) as nat, tips.drop_first());
        assert(tips.drop_first()[(n - 1) as int] == tips[n as int]);
    }
}

} // verus!
