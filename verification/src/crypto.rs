use vstd::prelude::*;

use parity_crypto::Keccak256;
use rand::Rng;

use crate::bytes::be_value;

verus! {

/// The Keccak-256 digest of `data`, as `parity_crypto` computes it.
pub uninterp spec fn keccak256_digest(data: Seq<u8>) -> Seq<u8>;

/// Calls `parity_crypto::Keccak256::keccak256` on `data`. Claimed of it: the
/// 32-byte result is a function of the bytes of `data` alone.
#[verifier::external_body]
pub(crate) fn keccak256(data: &[u8]) -> (res: [u8; 32])
    ensures
        res@ == keccak256_digest(data@),
{
    data.keccak256()
}

/// The order of the secp256k1 group.
pub open spec fn secp256k1_order() -> nat {
    0xFFFFFFFFFFFFFFFFFFFFFFFFFFFFFFFEBAAEDCE6AF48A03BBFD25E8CD0364141nat
}

/// `bytes` is a valid secp256k1 secret key: 32 bytes whose big-endian value
/// is neither zero nor below the group order.
pub open spec fn is_valid_secret_key(bytes: Seq<u8>) -> bool {
    &&& bytes.len() == 32
    &&& 0 < be_value(bytes) < secp256k1_order()
}

/// Calls `secp256k1::SecretKey::from_slice` on `data`. Claimed of it, as
/// its source and libsecp256k1's documentation of `ec_seckey_verify` show:
/// it succeeds exactly on a valid secret key, and the key holds the same
/// 32 bytes.
#[verifier::external_body]
pub(crate) fn secret_key_from_slice(data: &[u8]) -> (res: Option<[u8; 32]>)
    ensures
        res is Some <==> is_valid_secret_key(data@),
        res matches Some(k) ==> k@ == data@,
{
    match secp256k1::SecretKey::from_slice(data) {
        Ok(key) => Some(key.secret_bytes()),
        Err(_) => None,
    }
}

/// The uncompressed serialization (65 bytes) of the public key of the
/// secret key `secret`.
pub uninterp spec fn secp256k1_public_key(secret: Seq<u8>) -> Seq<u8>;

/// Derives the public key of `secret` with `secp256k1::PublicKey::
/// from_secret_key_global` and serializes it with `serialize_uncompressed`.
/// Claimed of it: the 65 bytes are a function of the secret key alone.
#[verifier::external_body]
pub(crate) fn public_key_of(secret: &[u8; 32]) -> (res: [u8; 65])
    requires
        is_valid_secret_key(secret@),
    ensures
        res@ == secp256k1_public_key(secret@),
{
    let key = secp256k1::SecretKey::from_slice(secret).expect("valid by precondition");
    secp256k1::PublicKey::from_secret_key_global(&key).serialize_uncompressed()
}

/// The compact recoverable ECDSA signature (64 bytes) and the recovery id
/// that libsecp256k1 gives for `digest` under the secret key `secret`.
pub uninterp spec fn secp256k1_recoverable_signature(secret: Seq<u8>, digest: Seq<u8>) -> (
    Seq<u8>,
    int,
);

/// Signs `digest` with `secp256k1::Secp256k1::sign_ecdsa_recoverable` (the
/// global context, RFC 6979 nonces) and serializes the signature with
/// `serialize_compact`. Claimed of it: signing is deterministic, so the
/// signature and recovery id are a function of the key and the digest, and
/// the recovery id lies in 0..=3.
#[verifier::external_body]
pub(crate) fn sign_recoverable(secret: &[u8; 32], digest: &[u8; 32]) -> (res: ([u8; 64], i32))
    requires
        is_valid_secret_key(secret@),
    ensures
        (res.0@, res.1 as int) == secp256k1_recoverable_signature(secret@, digest@),
        0 <= res.1 <= 3,
{
    let key = secp256k1::SecretKey::from_slice(secret).expect("valid by precondition");
    let message = secp256k1::Message::from_digest(*digest);
    let (recovery_id, compact) = secp256k1::SECP256K1.sign_ecdsa_recoverable(&message, &key)
        .serialize_compact();
    (compact, recovery_id.to_i32())
}

/// Fills 32 bytes from `rand::rng()`. Nothing is claimed of the bytes.
#[verifier::external_body]
pub(crate) fn random_bytes_32() -> [u8; 32] {
    let mut bytes = [0u8; 32];
    rand::rng().fill(&mut bytes);
    bytes
}

} // verus!
