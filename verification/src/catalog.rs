//! The descriptor catalog: the ordered texts that represent the wallet's
//! trackable state, and the filter that deduplicates them against what the
//! ledger service already has imported.

use vstd::prelude::*;

use crate::descriptor::{
    contract_descriptor, contract_descriptor_text, multisig_descriptor, multisig_descriptor_text,
    raw_descriptor, raw_descriptor_text,
};
use crate::store::{FidelityBond, SwapCoin, WalletStore};

verus! {

/// The multisig descriptor text of each swap coin, in order.
pub open spec fn multisig_texts_of(coins: Seq<SwapCoin>) -> Seq<Seq<char>> {
    coins.map_values(|c: SwapCoin| multisig_descriptor_text(c.other_pubkey@, c.my_pubkey@))
}

/// The contract-script descriptor text of each swap coin, in order.
pub open spec fn contract_texts_of(coins: Seq<SwapCoin>) -> Seq<Seq<char>> {
    coins.map_values(|c: SwapCoin| contract_descriptor_text(c.contract_redeemscript@))
}

/// All swap-coin descriptor texts of a store, in catalog order: incoming
/// multisig, outgoing multisig, incoming contract, outgoing contract.
pub open spec fn swap_texts_of(store: WalletStore) -> Seq<Seq<char>> {
    multisig_texts_of(store.incoming_swapcoins@) + multisig_texts_of(store.outgoing_swapcoins@)
        + contract_texts_of(store.incoming_swapcoins@) + contract_texts_of(
        store.outgoing_swapcoins@,
    )
}

/// The raw descriptor text of each fidelity bond, in insertion order.
pub open spec fn fidelity_texts_of(bonds: Seq<FidelityBond>) -> Seq<Seq<char>> {
    bonds.map_values(|b: FidelityBond| raw_descriptor_text(b.script_pub_key@))
}

/// The descriptor texts the import-status probe inspects: the first and the
/// last bond script, by insertion order.  With a single bond only that one
/// is probed; with none the probe is vacuous.
pub open spec fn probe_texts_of(bonds: Seq<FidelityBond>) -> Seq<Seq<char>> {
    if bonds.len() == 0 {
        Seq::empty()
    } else if bonds.len() == 1 {
        seq![raw_descriptor_text(bonds[0].script_pub_key@)]
    } else {
        seq![
            raw_descriptor_text(bonds[0].script_pub_key@),
            raw_descriptor_text(bonds.last().script_pub_key@),
        ]
    }
}

/// Pushing one string onto a vector pushes its view onto the deep view.
proof fn lemma_deep_view_push(pre: Vec<String>, post: Vec<String>, s: String)
    requires
        post@ == pre@.push(s),
    ensures
        post.deep_view() =~= pre.deep_view().push(s@),
{
    assert forall|k: int| 0 <= k < pre@.len() implies post.deep_view()[k]
        == pre.deep_view()[k] by {
        assert(post@[k] == pre@[k]);
    }
}

/// Appends the multisig descriptor text of every swap coin to `out`.
fn push_multisig_texts(out: &mut Vec<String>, coins: &Vec<SwapCoin>)
    ensures
        final(out).deep_view() == old(out).deep_view() + multisig_texts_of(coins@),
{
    let mut i: usize = 0;
    while i < coins.len()
        invariant
            i <= coins@.len(),
            out.deep_view() == old(out).deep_view() + multisig_texts_of(coins@.take(i as int)),
        decreases coins@.len() - i,
    {
        let d = multisig_descriptor(&coins[i].other_pubkey, &coins[i].my_pubkey);
        let ghost pre = *out;
        let ghost dg = d;
        out.push(d);
        proof {
            lemma_deep_view_push(pre, *out, dg);
            assert(multisig_texts_of(coins@.take(i + 1)) =~= multisig_texts_of(
                coins@.take(i as int),
            ).push(dg@));
            assert(out.deep_view() =~= old(out).deep_view() + multisig_texts_of(
                coins@.take(i + 1),
            ));
        }
        i = i + 1;
    }
    proof {
        assert(coins@.take(coins@.len() as int) =~= coins@);
    }
}

/// Appends the contract-script descriptor text of every swap coin to `out`.
fn push_contract_texts(out: &mut Vec<String>, coins: &Vec<SwapCoin>)
    ensures
        final(out).deep_view() == old(out).deep_view() + contract_texts_of(coins@),
{
    let mut i: usize = 0;
    while i < coins.len()
        invariant
            i <= coins@.len(),
            out.deep_view() == old(out).deep_view() + contract_texts_of(coins@.take(i as int)),
        decreases coins@.len() - i,
    {
        let d = contract_descriptor(&coins[i].contract_redeemscript);
        let ghost pre = *out;
        let ghost dg = d;
        out.push(d);
        proof {
            lemma_deep_view_push(pre, *out, dg);
            assert(contract_texts_of(coins@.take(i + 1)) =~= contract_texts_of(
                coins@.take(i as int),
            ).push(dg@));
            assert(out.deep_view() =~= old(out).deep_view() + contract_texts_of(
                coins@.take(i + 1),
            ));
        }
        i = i + 1;
    }
    proof {
        assert(coins@.take(coins@.len() as int) =~= coins@);
    }
}

/// Derives every swap-coin descriptor text of the store, in catalog order.
pub fn swap_descriptor_texts(store: &WalletStore) -> (r: Vec<String>)
    ensures
        r.deep_view() == swap_texts_of(*store),
{
    let mut out: Vec<String> = Vec::new();
    push_multisig_texts(&mut out, &store.incoming_swapcoins);
    push_multisig_texts(&mut out, &store.outgoing_swapcoins);
    push_contract_texts(&mut out, &store.incoming_swapcoins);
    push_contract_texts(&mut out, &store.outgoing_swapcoins);
    proof {
        assert(out.deep_view() =~= swap_texts_of(*store));
    }
    out
}

/// Derives the raw descriptor text of every fidelity bond, in order.
pub fn fidelity_descriptor_texts(bonds: &Vec<FidelityBond>) -> (r: Vec<String>)
    ensures
        r.deep_view() == fidelity_texts_of(bonds@),
{
    let mut out: Vec<String> = Vec::new();
    let mut i: usize = 0;
    while i < bonds.len()
        invariant
            i <= bonds@.len(),
            out.deep_view() == fidelity_texts_of(bonds@.take(i as int)),
        decreases bonds@.len() - i,
    {
        let d = raw_descriptor(&bonds[i].script_pub_key);
        let ghost pre = out;
        let ghost dg = d;
        out.push(d);
        proof {
            lemma_deep_view_push(pre, out, dg);
            assert(fidelity_texts_of(bonds@.take(i + 1)) =~= fidelity_texts_of(
                bonds@.take(i as int),
            ).push(dg@));
            assert(out.deep_view() =~= fidelity_texts_of(bonds@.take(i + 1)));
        }
        i = i + 1;
    }
    proof {
        assert(bonds@.take(bonds@.len() as int) =~= bonds@);
    }
    out
}

/// Derives the descriptor texts the import-status probe inspects.
pub fn probe_descriptor_texts(bonds: &Vec<FidelityBond>) -> (r: Vec<String>)
    ensures
        r.deep_view() == probe_texts_of(bonds@),
{
    let mut out: Vec<String> = Vec::new();
    if bonds.len() == 0 {
    } else if bonds.len() == 1 {
        out.push(raw_descriptor(&bonds[0].script_pub_key));
    } else {
        out.push(raw_descriptor(&bonds[0].script_pub_key));
        out.push(raw_descriptor(&bonds[bonds.len() - 1].script_pub_key));
    }
    proof {
        assert(out.deep_view() =~= probe_texts_of(bonds@));
    }
    out
}

/// The sub-sequence of `descs` whose flag is false: the descriptors the
/// service does not hold yet, in their original order.
pub open spec fn filter_unimported_spec(descs: Seq<String>, flags: Seq<bool>) -> Seq<String>
    decreases descs.len(),
{
    if descs.len() == 0 || flags.len() == 0 {
        Seq::empty()
    } else {
        filter_unimported_spec(descs.drop_last(), flags.drop_last()) + (if flags.last() {
            Seq::<String>::empty()
        } else {
            seq![descs.last()]
        })
    }
}

/// Appends to `out` every descriptor whose imported flag is false, in order.
pub fn push_unimported(out: &mut Vec<String>, descs: &Vec<String>, flags: &Vec<bool>)
    requires
        descs@.len() == flags@.len(),
    ensures
        final(out)@ == old(out)@ + filter_unimported_spec(descs@, flags@),
{
    let mut i: usize = 0;
    while i < descs.len()
        invariant
            i <= descs@.len(),
            descs@.len() == flags@.len(),
            out@ == old(out)@ + filter_unimported_spec(descs@.take(i as int), flags@.take(i as int)),
        decreases descs@.len() - i,
    {
        if !flags[i] {
            out.push(descs[i].clone());
        }
        proof {
            assert(descs@.take(i + 1).drop_last() =~= descs@.take(i as int));
            assert(flags@.take(i + 1).drop_last() =~= flags@.take(i as int));
            assert(out@ =~= old(out)@ + filter_unimported_spec(
                descs@.take(i + 1),
                flags@.take(i + 1),
            ));
        }
        i = i + 1;
    }
    proof {
        assert(descs@.take(descs@.len() as int) =~= descs@);
        assert(flags@.take(flags@.len() as int) =~= flags@);
    }
}

/// Appends a copy of every element of `src` to `dst`, in order.
pub fn append_all(dst: &mut Vec<String>, src: &Vec<String>)
    ensures
        final(dst)@ == old(dst)@ + src@,
{
    let mut i: usize = 0;
    while i < src.len()
        invariant
            i <= src@.len(),
            dst@ == old(dst)@ + src@.take(i as int),
        decreases src@.len() - i,
    {
        dst.push(src[i].clone());
        proof {
            assert(src@.take(i + 1) =~= src@.take(i as int).push(src@[i as int]));
            assert(dst@ =~= old(dst)@ + src@.take(i + 1));
        }
        i = i + 1;
    }
    proof {
        assert(src@.take(src@.len() as int) =~= src@);
    }
}

/// No double-import: a descriptor the service already holds — its imported
/// flag is true wherever it occurs — never appears in the filtered batch.
pub proof fn lemma_no_double_import(descs: Seq<String>, flags: Seq<bool>, x: String)
    requires
        descs.len() == flags.len(),
        forall|j: int| 0 <= j < descs.len() && descs[j] == x ==> flags[j],
    ensures
        !filter_unimported_spec(descs, flags).contains(x),
    decreases descs.len(),
{
    if descs.len() == 0 {
        assert(!filter_unimported_spec(descs, flags).contains(x));
    } else {
        let prefix_d = descs.drop_last();
        let prefix_f = flags.drop_last();
        assert(forall|j: int| 0 <= j < prefix_d.len() && prefix_d[j] == x ==> prefix_f[j]) by {
            assert(forall|j: int| 0 <= j < prefix_d.len() ==> prefix_d[j] == descs[j]);
        }
        lemma_no_double_import(prefix_d, prefix_f, x);
        let tail = if flags.last() {
            Seq::<String>::empty()
        } else {
            seq![descs.last()]
        };
        let f = filter_unimported_spec(descs, flags);
        assert(f == filter_unimported_spec(prefix_d, prefix_f) + tail);
        if f.contains(x) {
            let k = choose|k: int| 0 <= k < f.len() && f[k] == x;
            if k < filter_unimported_spec(prefix_d, prefix_f).len() {
                assert(filter_unimported_spec(prefix_d, prefix_f).contains(x));
            } else {
                assert(tail[k - filter_unimported_spec(prefix_d, prefix_f).len()] == x);
                assert(!flags.last() && descs.last() == x);
                assert(flags[descs.len() - 1]);
            }
        }
    }
}

/// When every flag is true — everything is already imported — the filtered
/// batch is empty.
pub proof fn lemma_filter_all_imported(descs: Seq<String>, flags: Seq<bool>)
    requires
        descs.len() == flags.len(),
        forall|j: int| 0 <= j < flags.len() ==> flags[j],
    ensures
        filter_unimported_spec(descs, flags).len() == 0,
    decreases descs.len(),
{
    if descs.len() > 0 {
        lemma_filter_all_imported(descs.drop_last(), flags.drop_last());
    }
}

} // verus!
