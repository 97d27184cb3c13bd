use wallet_sync::descriptor::{
    contract_descriptor, multisig_descriptor, raw_descriptor, redeemscript_to_scriptpubkey,
};
use wallet_sync::hex::hex_encode;

#[test]
fn multisig_descriptor_exact_text() {
    let a = "03a1b2".to_string();
    let b = "02c3d4".to_string();
    let d = multisig_descriptor(&a, &b);
    assert_eq!(d, "wsh(sortedmulti(2,03a1b2,02c3d4))");
}

#[test]
fn multisig_descriptor_key_order_matters() {
    let a = "aa".to_string();
    let b = "bb".to_string();
    assert_eq!(multisig_descriptor(&a, &b), "wsh(sortedmulti(2,aa,bb))");
    assert_eq!(multisig_descriptor(&b, &a), "wsh(sortedmulti(2,bb,aa))");
}

#[test]
fn raw_descriptor_exact_text() {
    let spk: Vec<u8> = vec![0x00, 0x01, 0xff, 0x7a];
    assert_eq!(raw_descriptor(&spk), "raw(0001ff7a)");
}

#[test]
fn raw_descriptor_empty_script() {
    let spk: Vec<u8> = vec![];
    assert_eq!(raw_descriptor(&spk), "raw()");
}

#[test]
fn hex_encode_all_nibbles() {
    let bytes: Vec<u8> = vec![0x01, 0x23, 0x45, 0x67, 0x89, 0xab, 0xcd, 0xef];
    assert_eq!(hex_encode(&bytes), "0123456789abcdef");
}

#[test]
fn hex_encode_empty() {
    let bytes: Vec<u8> = vec![];
    assert_eq!(hex_encode(&bytes), "");
}

#[test]
fn scriptpubkey_is_witness_script_hash_of_empty() {
    // sha256 of the empty byte string is the well-known constant below; a
    // digest that handed its input back unchanged would fail this test.
    let spk = redeemscript_to_scriptpubkey(&vec![]);
    assert_eq!(
        hex_encode(&spk),
        "0020e3b0c44298fc1c149afbf4c8996fb92427ae41e4649b934ca495991b7852b855"
    );
}

#[test]
fn contract_descriptor_of_known_redeemscript() {
    // sha256 of the bytes "abc".
    let rs: Vec<u8> = vec![0x61, 0x62, 0x63];
    assert_eq!(
        contract_descriptor(&rs),
        "raw(0020ba7816bf8f01cfea414140de5dae2223b00361a396177a9cb410ff61f20015ad)"
    );
}
