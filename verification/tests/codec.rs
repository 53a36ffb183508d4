use parity_crypto::Keccak256;
use bcos_sdk::utils::{
    hex_encode_with_prefix, make_private_key, private_key_to_address, public_key_to_address,
    HexDecode, PublicKey, AbiToken, TokenConvert, U256Convert, U256,
};
use bcos_sdk::{decode_permission_id, decode_revert_reason, hex_addr_to_h160, permission_id, status_message};

#[test]
fn hex_with_prefix_is_lowercase() {
    assert_eq!(hex_encode_with_prefix(&[0xab, 0x01, 0xff]), "0xab01ff");
    assert_eq!(hex_encode_with_prefix(&[]), "0x");
}

#[test]
fn hex_with_prefix_reads_back() {
    let bytes = vec![0u8, 1, 0x7f, 0x80, 0xfe, 0xff];
    let text = hex_encode_with_prefix(&bytes);
    assert_eq!(decode_permission_id(&text).unwrap(), bytes);
    assert_eq!(text.to_vec().unwrap(), bytes);
}

#[test]
fn decode_permission_id_with_and_without_prefix() {
    assert_eq!(decode_permission_id("0x0aFF").unwrap(), vec![0x0a, 0xff]);
    assert_eq!(decode_permission_id("0aff").unwrap(), vec![0x0a, 0xff]);
    let err = decode_permission_id("0X0aff").unwrap_err();
    assert_eq!(err.message, "permission_id 格式不正确");
    let err = decode_permission_id("0xabc").unwrap_err();
    assert_eq!(err.message, "permission_id 格式不正确");
}

#[test]
fn string_to_vec_accepts_either_prefix() {
    assert_eq!("0XABcd".to_string().to_vec().unwrap(), vec![0xab, 0xcd]);
    assert_eq!("abcd".to_string().to_vec().unwrap(), vec![0xab, 0xcd]);
    let err = "0xzz".to_string().to_vec().unwrap_err();
    assert_eq!(err.message, "解析内容失败，清查输入是否正常");
}

#[test]
fn h160_parses_forty_digits() {
    let a = hex_addr_to_h160("0x7e5f4552091a69125d5dfcb7b8c2659029395bdf").unwrap();
    assert_eq!(a.to_vec(), hex::decode("7e5f4552091a69125d5dfcb7b8c2659029395bdf").unwrap());
    let b = hex_addr_to_h160("7E5F4552091A69125D5DFCB7B8C2659029395BDF").unwrap();
    assert_eq!(a, b);
}

#[test]
fn h160_skips_whitespace_between_digits() {
    let a = hex_addr_to_h160("0x7e5f4552091a69125d5dfcb7b8c2659029395bdf").unwrap();
    let b = hex_addr_to_h160("0x7e5f 4552091a69125d5dfcb7b8c2659029395bdf\n").unwrap();
    assert_eq!(a, b);
}

#[test]
fn h160_rejects_wrong_lengths_and_characters() {
    assert!(hex_addr_to_h160("0x7e5f").is_err());
    assert!(hex_addr_to_h160("0x7e5f4552091a69125d5dfcb7b8c2659029395bdf00").is_err());
    assert!(hex_addr_to_h160("0x7e5f4552091a69125d5dfcb7b8c2659029395bdg").is_err());
    assert!(hex_addr_to_h160("").is_err());
}

#[test]
fn permission_id_hashes_owner_and_names() {
    let owner = "0x7e5f4552091a69125d5dfcb7b8c2659029395bdf";
    let id = permission_id(owner, "https://node", "dxc", "api").unwrap();
    let mut input = hex::decode("7e5f4552091a69125d5dfcb7b8c2659029395bdf").unwrap();
    input.extend_from_slice(b"https://node");
    input.extend_from_slice(b"dxc");
    input.extend_from_slice(b"api");
    let expected = keccak(&input);
    assert_eq!(id, expected.to_vec());
    assert_eq!(id.len(), 32);
    assert!(permission_id("nope", "a", "b", "c").is_err());
}

fn revert_output(reason: &str) -> String {
    let mut data = vec![0u8; 31];
    data.push(0x20);
    let mut len_word = vec![0u8; 28];
    len_word.extend_from_slice(&(reason.len() as u32).to_be_bytes());
    data.extend_from_slice(&len_word);
    data.extend_from_slice(reason.as_bytes());
    while data.len() % 32 != 0 {
        data.push(0);
    }
    format!("0x08c379a0{}", hex::encode(data))
}

#[test]
fn revert_reason_is_decoded() {
    assert_eq!(decode_revert_reason(&revert_output("Not enough")).unwrap(), "Not enough");
    assert_eq!(decode_revert_reason(&revert_output("")).unwrap(), "");
    assert_eq!(decode_revert_reason(&revert_output("余额不足")).unwrap(), "余额不足");
}

#[test]
fn revert_reason_errors() {
    let e = decode_revert_reason("0x12345678").unwrap_err();
    assert_eq!(e.message, "解析出错：不是 revert/require 信息");
    let e = decode_revert_reason("0x08c379a0zz").unwrap_err();
    assert_eq!(e.message, "解析错误信息失败：格式错误！");
    let e = decode_revert_reason("0x08c379a0abcd").unwrap_err();
    assert_eq!(e.message, "解析错误信息失败：格式错误！");
    let mut bad = vec![0u8; 31];
    bad.push(0x20);
    bad.extend_from_slice(&[0u8; 31]);
    bad.push(2);
    bad.extend_from_slice(&[0xff, 0xfe]);
    let e = decode_revert_reason(&format!("0x08c379a0{}", hex::encode(bad))).unwrap_err();
    assert_eq!(e.message, "解析错误信息失败：格式错误！");
}

#[test]
fn status_messages() {
    assert_eq!(status_message(0), "成功");
    assert_eq!(status_message(16), "交易回滚（RevertInstruction）");
    assert_eq!(status_message(35), "WASM 执行失败（WASMTrap）");
    assert_eq!(status_message(20), "未知错误码");
    assert_eq!(status_message(-1), "未知错误码");
}

#[test]
fn private_key_one_has_known_address() {
    let key = "0x0000000000000000000000000000000000000000000000000000000000000001";
    assert_eq!(private_key_to_address(key), "0x7e5f4552091a69125d5dfcb7b8c2659029395bdf");
    let k = make_private_key("0X0000000000000000000000000000000000000000000000000000000000000001");
    let mut one = [0u8; 32];
    one[31] = 1;
    assert_eq!(k.bytes, one);
}

#[test]
fn public_key_to_address_uses_last_twenty_bytes() {
    let secp = secp256k1::Secp256k1::new();
    let sk = secp256k1::SecretKey::from_slice(&[7u8; 32]).unwrap();
    let pk = PublicKey { uncompressed: sk.public_key(&secp).serialize_uncompressed() };
    let hash = keccak(&pk.uncompressed[1..]);
    let expected = format!("0x{}", hex::encode(&hash[12..]));
    assert_eq!(public_key_to_address(&pk), expected);
    assert_eq!(private_key_to_address(&hex::encode([7u8; 32])), expected);
}

#[test]
fn u256_conversions() {
    let x = U256::from_i64(42).unwrap();
    assert_eq!(x.0, [42, 0, 0, 0]);
    assert_eq!(x.to_i64().unwrap(), 42);
    let e = U256::from_i64(-1).unwrap_err();
    assert_eq!(e.message, "的负数不能转换为 U256");
    let e = U256([0, 1, 0, 0]).to_i64().unwrap_err();
    assert_eq!(e.message, "超出 i64 表示范围");
    let e = U256([1u64 << 63, 0, 0, 0]).to_i64().unwrap_err();
    assert_eq!(e.message, "超出 i64 表示范围");
    assert_eq!(U256([i64::MAX as u64, 0, 0, 0]).to_i64().unwrap(), i64::MAX);
}

#[test]
fn u256_i64_roundtrip() {
    for v in [0i64, 1, 1000, i64::MAX] {
        assert_eq!(U256::from_i64(v).unwrap().to_i64().unwrap(), v);
    }
}

#[test]
fn token_conversions() {
    assert_eq!(AbiToken::Uint(U256([5, 0, 0, 0])).to_i64(), Some(5));
    assert_eq!(AbiToken::Int(U256([0, 0, 0, 1])).to_i64(), None);
    assert_eq!(AbiToken::Bool(true).to_i64(), None);
    assert_eq!(
        TokenConvert::to_string(AbiToken::Address([0x11; 20])),
        Some(format!("0x{}", "11".repeat(20)))
    );
    assert_eq!(TokenConvert::to_string(AbiToken::FixedBytes(vec![0xab])), Some("0xab".to_string()));
    assert_eq!(TokenConvert::to_string(AbiToken::Str("x".to_string())), None);
}

fn keccak(data: &[u8]) -> [u8; 32] {
    data.keccak256()
}

#[test]
fn address_from_hash_takes_last_twenty_bytes() {
    let mut hash = [0u8; 32];
    for (i, b) in hash.iter_mut().enumerate() {
        *b = i as u8;
    }
    assert_eq!(
        bcos_sdk::utils::address_from_hash(&hash),
        "0x0c0d0e0f101112131415161718191a1b1c1d1e1f"
    );
}

#[test]
fn private_key_text_check() {
    let ok = bcos_sdk::utils::is_private_key;
    assert!(ok("0x0000000000000000000000000000000000000000000000000000000000000001"));
    assert!(ok("0XFFFFFFFFFFFFFFFFFFFFFFFFFFFFFFFEBAAEDCE6AF48A03BBFD25E8CD0364140"));
    assert!(!ok("0xFFFFFFFFFFFFFFFFFFFFFFFFFFFFFFFEBAAEDCE6AF48A03BBFD25E8CD0364141"));
    assert!(!ok("0x0000000000000000000000000000000000000000000000000000000000000000"));
    assert!(!ok("0x01"));
    assert!(!ok("zz"));
}

#[test]
fn to_vec_reads_either_case() {
    let bytes = vec![0x00u8, 0xab, 0x7f, 0xff];
    assert_eq!(hex::encode(&bytes).to_vec().unwrap(), bytes);
    assert_eq!(format!("0X{}", hex::encode_upper(&bytes)).to_vec().unwrap(), bytes);
}

#[test]
fn h160_error_text_is_the_parsers() {
    let e = hex_addr_to_h160("0x12").unwrap_err();
    assert!(!e.message.is_empty());
    let e2 = permission_id("0x12", "a", "b", "c").unwrap_err();
    assert_eq!(e.message, e2.message);
}
