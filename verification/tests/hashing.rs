use parity_crypto::Keccak256;
use bcos_sdk::entity::Transaction;
use bcos_sdk::tars_serial::TarsOutputStream;
use bcos_sdk::{labelhash, namehash, string_to_byte32};

fn hex32(s: &str) -> [u8; 32] {
    let v = hex::decode(s).unwrap();
    let mut a = [0u8; 32];
    a.copy_from_slice(&v);
    a
}

#[test]
fn labelhash_of_eth() {
    assert_eq!(
        labelhash("eth"),
        hex32("4f5b812789fc606be1b3b16908db13fc7a9adf7ca72641f84d75b47069d3d7f0")
    );
}

#[test]
fn string_to_byte32_is_keccak() {
    assert_eq!(
        string_to_byte32(""),
        hex32("c5d2460186f7233c927e7db2dcc703c0e500b653ca82273b7bfad8045d85a470")
    );
    assert_eq!(
        string_to_byte32("hello"),
        hex32("1c8aff950685c2ed4bc3174f3472287b56d9517b9c948127319a09a7a36deac8")
    );
    assert_eq!(string_to_byte32("eth"), labelhash("eth"));
}

#[test]
fn namehash_of_empty_is_zero() {
    assert_eq!(namehash(""), [0u8; 32]);
}

#[test]
fn namehash_of_eth() {
    assert_eq!(
        namehash("eth"),
        hex32("93cdeb708b7545dc668eb9280176169d1c33cfd8ed6f04690a0bcc88a93fc4ae")
    );
}

#[test]
fn namehash_of_foo_eth() {
    assert_eq!(
        namehash("foo.eth"),
        hex32("de9b09fd7c5f901e23a3f19fecc54828e9c848539801e86591bd9801b019f84f")
    );
}

#[test]
fn namehash_first_label_recursion() {
    let rest = namehash("b.c");
    let mut combined = rest.to_vec();
    combined.extend_from_slice(&labelhash("a"));
    let expected = keccak(&combined);
    assert_eq!(namehash("a.b.c"), expected);
}

#[test]
fn namehash_trailing_dot_is_an_empty_label() {
    let mut combined = namehash("").to_vec();
    combined.extend_from_slice(&labelhash(""));
    let inner = keccak(&combined);
    let mut outer = inner.to_vec();
    outer.extend_from_slice(&labelhash("a"));
    let expected = keccak(&outer);
    assert_eq!(namehash("a."), expected);
}

fn sample_tx() -> Transaction {
    let mut tx = Transaction::default();
    tx.version = 1;
    tx.block_limit = 600;
    tx.nonce = "n1".to_string();
    tx.to = "0xabc".to_string();
    tx.data = Some(vec![1, 2, 3]);
    tx
}

#[test]
fn default_transaction() {
    let tx = Transaction::default();
    assert_eq!(tx.version, 0);
    assert_eq!(tx.chain_id, "chain0");
    assert_eq!(tx.group_id, "group0");
    assert_eq!(tx.nonce, "0");
    assert_eq!(tx.block_limit, 0);
    assert!(tx.to.is_empty() && tx.abi.is_empty() && tx.data.is_none());
    assert_eq!(tx.import_time, 0);
    assert!(tx.hash.is_empty() && tx.input.is_empty() && tx.signature.is_empty());
}

#[test]
fn tx_hash_covers_signed_fields() {
    let tx = sample_tx();
    let mut pre = Vec::new();
    pre.extend_from_slice(&1i32.to_be_bytes());
    pre.extend_from_slice(b"chain0");
    pre.extend_from_slice(b"group0");
    pre.extend_from_slice(&600i64.to_be_bytes());
    pre.extend_from_slice(b"n1");
    pre.extend_from_slice(b"0xabc");
    pre.extend_from_slice(&[1, 2, 3]);
    let expected = keccak(&pre);
    assert_eq!(tx.calc_tx_hash(), expected);
    let mut other = sample_tx();
    other.import_time = 99;
    other.signature = "sig".to_string();
    assert_eq!(other.calc_tx_hash(), expected);
}

#[test]
fn write_to_layout() {
    let tx = sample_tx();
    let mut os = TarsOutputStream::new();
    tx.write_to(&mut os);
    let mut expected = vec![16, 1];
    expected.extend_from_slice(&[6 + 32, 6]);
    expected.extend_from_slice(b"chain0");
    expected.extend_from_slice(&[6 + 48, 6]);
    expected.extend_from_slice(b"group0");
    expected.extend_from_slice(&[1 + 64, 0x02, 0x58]);
    expected.extend_from_slice(&[6 + 80, 2]);
    expected.extend_from_slice(b"n1");
    expected.extend_from_slice(&[6 + 96, 5]);
    expected.extend_from_slice(b"0xabc");
    expected.extend_from_slice(&[13 + 112, 0, 0, 3, 1, 2, 3]);
    assert_eq!(os.buf, expected);
}

#[test]
fn write_to_skips_empty_recipient_and_writes_abi() {
    let mut tx = Transaction::default();
    tx.abi = "[]".to_string();
    let mut os = TarsOutputStream::new();
    tx.write_to(&mut os);
    let mut expected = vec![12 + 16];
    expected.extend_from_slice(&[6 + 32, 6]);
    expected.extend_from_slice(b"chain0");
    expected.extend_from_slice(&[6 + 48, 6]);
    expected.extend_from_slice(b"group0");
    expected.extend_from_slice(&[12 + 64]);
    expected.extend_from_slice(&[6 + 80, 1, b'0']);
    expected.extend_from_slice(&[13 + 112, 0, 12]);
    expected.extend_from_slice(&[6 + 128, 2, b'[', b']']);
    assert_eq!(os.buf, expected);
}

fn keccak(data: &[u8]) -> [u8; 32] {
    data.keccak256()
}
