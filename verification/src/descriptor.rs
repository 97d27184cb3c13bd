//! Derivation of the descriptor texts the engine submits for watching:
//! 2-of-2 sorted-multisig descriptors for swap coins and `raw(...)`
//! descriptors for contract scripts and fidelity bonds.  All texts here are
//! the forms *before* checksum resolution; the ledger service canonicalizes
//! them by appending a checksum.

use vstd::prelude::*;
use vstd::string::StringExecFns;

use crate::hex::{hex_encode, hex_of};

verus! {

/// What the sha256 digest of a byte string is.  The digest is a function of
/// the input bytes alone; its value is not stated here.
pub uninterp spec fn sha256_of(bytes: Seq<u8>) -> Seq<u8>;

/// Relies on bitcoin's `hashes::sha256::Hash::hash`: the digest is 32 bytes
/// long and depends on the input bytes alone.
#[verifier::external_body]
fn sha256_digest(bytes: &Vec<u8>) -> (r: Vec<u8>)
    ensures
        r@ == sha256_of(bytes@),
        r@.len() == 32,
{
    let digest = <bitcoin::hashes::sha256::Hash as bitcoin::hashes::Hash>::hash(
        bytes.as_slice(),
    );
    <bitcoin::hashes::sha256::Hash as bitcoin::hashes::Hash>::to_byte_array(digest).to_vec()
}

/// The script-pub-key paying to a witness-script-hash of a redeem script:
/// an empty-push opcode, a 32-byte push opcode, and the script's digest.
pub open spec fn scriptpubkey_of_redeemscript(redeemscript: Seq<u8>) -> Seq<u8> {
    seq![0u8, 32u8] + sha256_of(redeemscript)
}

/// Computes the script-pub-key corresponding to a contract redeem script.
pub fn redeemscript_to_scriptpubkey(redeemscript: &Vec<u8>) -> (r: Vec<u8>)
    ensures
        r@ == scriptpubkey_of_redeemscript(redeemscript@),
{
    let mut spk: Vec<u8> = Vec::new();
    spk.push(0u8);
    spk.push(32u8);
    let digest = sha256_digest(redeemscript);
    let mut j: usize = 0;
    while j < digest.len()
        invariant
            j <= digest@.len(),
            spk@ == seq![0u8, 32u8] + digest@.take(j as int),
        decreases digest@.len() - j,
    {
        spk.push(digest[j]);
        proof {
            assert(digest@.take(j + 1) =~= digest@.take(j as int).push(digest@[j as int]));
            assert(spk@ =~= seq![0u8, 32u8] + digest@.take(j + 1));
        }
        j = j + 1;
    }
    proof {
        assert(digest@.take(digest@.len() as int) =~= digest@);
    }
    spk
}

/// The 2-of-2 sorted-multisig descriptor text for a swap coin, over the two
/// participant public keys in the order given.
pub open spec fn multisig_descriptor_text(other: Seq<char>, my: Seq<char>) -> Seq<char> {
    "wsh(sortedmulti(2,"@ + other + ","@ + my + "))"@
}

/// Derives the multisig descriptor text of a swap coin from the
/// counterparty's and our own public key, in that order.
pub fn multisig_descriptor(other_pubkey: &String, my_pubkey: &String) -> (r: String)
    ensures
        r@ == multisig_descriptor_text(other_pubkey@, my_pubkey@),
{
    let mut s = "wsh(sortedmulti(2,".to_owned();
    s.append(other_pubkey.as_str());
    s.append(",");
    s.append(my_pubkey.as_str());
    s.append("))");
    s
}

/// The `raw(...)` descriptor text of a script-pub-key: the script's bytes
/// in lowercase hexadecimal.
pub open spec fn raw_descriptor_text(script_pub_key: Seq<u8>) -> Seq<char> {
    "raw("@ + hex_of(script_pub_key) + ")"@
}

/// Derives the raw descriptor text of a script-pub-key.
pub fn raw_descriptor(script_pub_key: &Vec<u8>) -> (r: String)
    ensures
        r@ == raw_descriptor_text(script_pub_key@),
{
    let mut s = "raw(".to_owned();
    let h = hex_encode(script_pub_key);
    s.append(h.as_str());
    s.append(")");
    s
}

/// The raw descriptor text of the script-pub-key corresponding to a
/// contract redeem script.
pub open spec fn contract_descriptor_text(redeemscript: Seq<u8>) -> Seq<char> {
    raw_descriptor_text(scriptpubkey_of_redeemscript(redeemscript))
}

/// Derives the raw descriptor text watching a contract redeem script's
/// script-pub-key.
pub fn contract_descriptor(redeemscript: &Vec<u8>) -> (r: String)
    ensures
        r@ == contract_descriptor_text(redeemscript@),
{
    let spk = redeemscript_to_scriptpubkey(redeemscript);
    raw_descriptor(&spk)
}

} // verus!
