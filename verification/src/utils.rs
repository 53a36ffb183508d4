use vstd::prelude::*;
use vstd::string::{StringExecFns, StringSliceAdditionalSpecFns};
use vstd::utf8::encode_utf8;

use crate::crypto::{
    is_valid_secret_key, keccak256, keccak256_digest, public_key_of, secp256k1_public_key,
    secret_key_from_slice,
};
use crate::error::BcosError;
use crate::hexcodec::{
    hex_decode, hex_decoded, hex_encode, hex_encoded, is_hex_digit, is_hex_text,
    hex_encoded_upper, lemma_hex_char_roundtrip, lemma_hex_chars_spell, lemma_hex_text_roundtrip,
    lemma_hex_upper_digits, strip_hex_prefix,
};

verus! {

/// A secp256k1 secret key: 32 bytes, big endian.
#[derive(Debug)]
pub struct SecretKey {
    pub bytes: [u8; 32],
}

/// A secp256k1 public key in its 65-byte uncompressed serialization.
#[derive(Debug)]
pub struct PublicKey {
    pub uncompressed: [u8; 65],
}

/// A 256-bit unsigned integer: four 64-bit limbs, least significant first.
#[derive(Debug, Clone, Copy, PartialEq, Eq)]
pub struct U256(pub [u64; 4]);

/// The value of a 256-bit integer.
pub open spec fn u256_value(x: U256) -> int {
    x.0[0] + x.0[1] * 0x1_0000_0000_0000_0000 + x.0[2] * 0x1_0000_0000_0000_0000_0000_0000_0000_0000
        + x.0[3] * 0x1_0000_0000_0000_0000_0000_0000_0000_0000_0000_0000_0000_0000
}

/// An ABI value.
#[derive(Debug, PartialEq)]
pub enum AbiToken {
    Address([u8; 20]),
    FixedBytes(Vec<u8>),
    Bytes(Vec<u8>),
    Int(U256),
    Uint(U256),
    Bool(bool),
    Str(String),
    FixedArray(Vec<AbiToken>),
    Array(Vec<AbiToken>),
    Tuple(Vec<AbiToken>),
}

/// Conversions of ABI values to plain values.
pub trait TokenConvert {
    fn to_i64(self) -> Option<i64>;

    fn to_string(self) -> Option<String>;
}

/// Conversions between 256-bit integers and `i64`.
pub trait U256Convert: Sized {
    fn from_i64(value: i64) -> Result<Self, BcosError>;

    fn to_i64(self) -> Result<i64, BcosError>;
}

/// Decoding of hex text.
pub trait HexDecode {
    fn to_vec(&self) -> Result<Vec<u8>, BcosError>;
}

/// Encoding of bytes as hex text.
pub trait HexEnCode {
    fn to_hex_string(data: &[u8]) -> String;
}

/// The integer that an ABI integer token holds as an `i64`: its value when
/// it is at most `i64::MAX`, else none.
pub open spec fn token_i64(t: AbiToken) -> Option<i64> {
    match t {
        AbiToken::Int(n) | AbiToken::Uint(n) => if u256_value(n) > i64::MAX {
            None
        } else {
            Some(u256_value(n) as i64)
        },
        _ => None,
    }
}

/// `s` begins with `0x` or `0X`.
pub open spec fn has_hex_prefix_any_case(s: Seq<u8>) -> bool {
    s.len() >= 2 && s[0] == 48 && (s[1] == 120 || s[1] == 88)
}

/// `s` without a leading `0x` or `0X`.
pub open spec fn strip_hex_prefix_any_case(s: Seq<u8>) -> Seq<u8> {
    if has_hex_prefix_any_case(s) {
        s.skip(2)
    } else {
        s
    }
}

/// `text` (UTF-8 bytes) is hex, with or without a `0x`/`0X` prefix, of a
/// valid secp256k1 secret key.
pub open spec fn is_private_key_text(text: Seq<u8>) -> bool {
    let h = strip_hex_prefix_any_case(text);
    is_hex_text(h) && is_valid_secret_key(hex_decoded(h))
}

/// The secret key that a private key text spells.
pub open spec fn private_key_bytes(text: Seq<u8>) -> Seq<u8> {
    hex_decoded(strip_hex_prefix_any_case(text))
}

/// The address text of a public key: `0x` and the lowercase hex of the last
/// 20 bytes of the digest of the key's 64 coordinate bytes.
pub open spec fn address_text(uncompressed: Seq<u8>) -> Seq<char> {
    "0x"@ + hex_encoded(keccak256_digest(uncompressed.skip(1)).skip(12))
}

/// `0x` followed by the lowercase hex of `data`.
pub fn hex_encode_with_prefix(data: &[u8]) -> (s: String)
    ensures
        s@ == "0x"@ + hex_encoded(data@),
{
    let mut s = String::from_str("0x");
    let hex = hex_encode(data);
    s.append(hex.as_str());
    s
}

/// The address text of a public key's digest: `0x` and the lowercase hex of
/// its last 20 bytes.
pub fn address_from_hash(hash: &[u8; 32]) -> (addr: String)
    ensures
        addr@ == "0x"@ + hex_encoded(hash@.skip(12)),
{
    let tail = &hash.as_slice()[12..32];
    assert(tail@ =~= hash@.skip(12));
    hex_encode_with_prefix(tail)
}

/// The address of a public key (see `address_text`).
pub fn public_key_to_address(public_key: &PublicKey) -> (addr: String)
    ensures
        addr@ == address_text(public_key.uncompressed@),
{
    let key = public_key.uncompressed.as_slice();
    let coordinates = &key[1..65];
    assert(coordinates@ =~= public_key.uncompressed@.skip(1));
    let hash = keccak256(coordinates);
    address_from_hash(&hash)
}

/// Strips a leading `0x` or `0X` from the bytes.
fn strip_prefix_any_case(b: &[u8]) -> (r: &[u8])
    ensures
        r@ == strip_hex_prefix_any_case(b@),
{
    if b.len() >= 2 && b[0] == 48u8 && (b[1] == 120u8 || b[1] == 88u8) {
        &b[2..b.len()]
    } else {
        b
    }
}

/// Whether `private_key` is the hex (with or without a `0x`/`0X` prefix) of
/// a valid secp256k1 secret key, as `make_private_key` requires.
pub fn is_private_key(private_key: &str) -> (ok: bool)
    ensures
        ok == is_private_key_text(private_key.spec_bytes()),
{
    let text = strip_prefix_any_case(private_key.as_bytes());
    match hex_decode(text) {
        Some(data) => secret_key_from_slice(data.as_slice()).is_some(),
        None => false,
    }
}

/// The secret key written in hex (with or without a `0x`/`0X` prefix) in
/// `private_key`. Text that is not the hex of a valid key is not accepted.
pub fn make_private_key(private_key: &str) -> (k: SecretKey)
    requires
        is_private_key_text(private_key.spec_bytes()),
    ensures
        k.bytes@ == private_key_bytes(private_key.spec_bytes()),
{
    let text = strip_prefix_any_case(private_key.as_bytes());
    let data = hex_decode(text).unwrap();
    let bytes = secret_key_from_slice(data.as_slice()).unwrap();
    SecretKey { bytes }
}

/// The address of the key whose hex text is `private_key`.
pub fn private_key_to_address(private_key: &str) -> (addr: String)
    requires
        is_private_key_text(private_key.spec_bytes()),
    ensures
        addr@ == address_text(secp256k1_public_key(private_key_bytes(private_key.spec_bytes()))),
{
    let private_key = make_private_key(private_key);
    let pk = PublicKey { uncompressed: public_key_of(&private_key.bytes) };
    public_key_to_address(&pk)
}

impl TokenConvert for AbiToken {
    /// The integer that an integer token holds, when it fits in an `i64`.
    fn to_i64(self) -> (r: Option<i64>)
        ensures
            r == token_i64(self),
    {
        match self {
            AbiToken::Int(n) | AbiToken::Uint(n) => {
                if n.0[1] != 0 || n.0[2] != 0 || n.0[3] != 0 || n.0[0] > 0x7fff_ffff_ffff_ffff {
                    None
                } else {
                    Some(n.0[0] as i64)
                }
            },
            _ => None,
        }
    }

    /// An address or fixed-bytes token as `0x` and lowercase hex; none for
    /// any other token.
    fn to_string(self) -> (r: Option<String>)
        ensures
            match self {
                AbiToken::Address(a) => r matches Some(s) && s@ == "0x"@ + hex_encoded(a@),
                AbiToken::FixedBytes(b) => r matches Some(s) && s@ == "0x"@ + hex_encoded(b@),
                _ => r is None,
            },
    {
        match self {
            AbiToken::Address(addr) => Some(hex_encode_with_prefix(addr.as_slice())),
            AbiToken::FixedBytes(addr) => Some(hex_encode_with_prefix(addr.as_slice())),
            _ => None,
        }
    }
}

impl U256Convert for U256 {
    /// The 256-bit integer of a non-negative value; an error for a negative one.
    fn from_i64(value: i64) -> (r: Result<U256, BcosError>)
        ensures
            value < 0 ==> (r matches Err(e) && e.message@ == "的负数不能转换为 U256"@),
            value >= 0 ==> (r matches Ok(x) && u256_value(x) == value),
    {
        if value < 0 {
            Err(BcosError::from_text("的负数不能转换为 U256"))
        } else {
            Ok(U256([value as u64, 0, 0, 0]))
        }
    }

    /// The value as an `i64`; an error when it exceeds `i64::MAX`.
    fn to_i64(self) -> (r: Result<i64, BcosError>)
        ensures
            u256_value(self) > i64::MAX ==> (r matches Err(e) && e.message@ == "超出 i64 表示范围"@),
            u256_value(self) <= i64::MAX ==> r == Ok::<i64, BcosError>(u256_value(self) as i64),
    {
        if self.0[1] != 0 || self.0[2] != 0 || self.0[3] != 0 || self.0[0] > 0x7fff_ffff_ffff_ffff {
            Err(BcosError::from_text("超出 i64 表示范围"))
        } else {
            Ok(self.0[0] as i64)
        }
    }
}

impl HexDecode for String {
    /// The bytes that the hex text spells, with or without a `0x`/`0X`
    /// prefix; an error when the rest is not hex.
    fn to_vec(&self) -> (r: Result<Vec<u8>, BcosError>)
        ensures
            is_hex_text(strip_hex_prefix_any_case(encode_utf8(self@))) ==> (r matches Ok(v) && v@
                == hex_decoded(strip_hex_prefix_any_case(encode_utf8(self@)))),
            !is_hex_text(strip_hex_prefix_any_case(encode_utf8(self@))) ==> (r matches Err(e)
                && e.message@ == "解析内容失败，清查输入是否正常"@),
    {
        let text = strip_prefix_any_case(self.as_str().as_bytes());
        match hex_decode(text) {
            Some(decode_bytes) => Ok(decode_bytes),
            None => Err(BcosError::from_text("解析内容失败，清查输入是否正常")),
        }
    }
}

/// Converting a non-negative `i64` to a 256-bit integer and back gives it
/// back.
pub proof fn law_u256_i64_roundtrip(value: i64, x: U256)
    requires
        value >= 0,
        u256_value(x) == value,
    ensures
        u256_value(x) <= i64::MAX,
        u256_value(x) as i64 == value,
{
}


/// The UTF-8 bytes of `0x` followed by the hex text of `b`.
pub open spec fn prefixed_hex_bytes(b: Seq<u8>) -> Seq<u8> {
    encode_utf8("0x"@ + hex_encoded(b))
}

proof fn lemma_prefixed_hex_bytes(b: Seq<u8>)
    ensures
        prefixed_hex_bytes(b).len() == 2 + 2 * b.len(),
        prefixed_hex_bytes(b)[0] == 48,
        prefixed_hex_bytes(b)[1] == 120,
        forall|j: int|
            0 <= j < 2 * b.len() ==> #[trigger] prefixed_hex_bytes(b)[j + 2] == hex_encoded(b)[j]
                as u8,
{
    reveal_strlit("0x");
    let c = "0x"@ + hex_encoded(b);
    assert forall|i: int| 0 <= i < c.len() implies '\0' <= #[trigger] c[i] <= '\u{7f}' by {
        if i >= 2 {
            let j = i - 2;
            let n = if j % 2 == 0 {
                b[j / 2] as int / 16
            } else {
                b[j / 2] as int % 16
            };
            lemma_hex_char_roundtrip(n);
            assert(c[i] == hex_encoded(b)[j]);
        }
    }
    vstd::utf8::is_ascii_chars_encode_utf8(c);
    assert forall|j: int| 0 <= j < 2 * b.len() implies #[trigger] prefixed_hex_bytes(b)[j + 2]
        == hex_encoded(b)[j] as u8 by {
        assert(c[j + 2] == hex_encoded(b)[j]);
    }
}

/// Writing bytes as `0x`-prefixed hex and reading the text back, by either
/// of the library's readers (lowercase prefix, or either case), gives the
/// bytes back.
pub proof fn law_hex_with_prefix_roundtrip(b: Seq<u8>)
    ensures
        is_hex_text(strip_hex_prefix(prefixed_hex_bytes(b))),
        hex_decoded(strip_hex_prefix(prefixed_hex_bytes(b))) == b,
        is_hex_text(strip_hex_prefix_any_case(prefixed_hex_bytes(b))),
        hex_decoded(strip_hex_prefix_any_case(prefixed_hex_bytes(b))) == b,
{
    lemma_prefixed_hex_bytes(b);
    let p = prefixed_hex_bytes(b);
    let h = p.skip(2);
    assert(strip_hex_prefix(p) == h);
    assert(strip_hex_prefix_any_case(p) == h);
    assert forall|j: int| 0 <= j < h.len() implies is_hex_digit(#[trigger] h[j]) by {
        assert(h[j] == p[j + 2]);
        let n = if j % 2 == 0 {
            b[j / 2] as int / 16
        } else {
            b[j / 2] as int % 16
        };
        lemma_hex_char_roundtrip(n);
    }
    assert forall|i: int| 0 <= i < b.len() implies #[trigger] hex_decoded(h)[i] == b[i] by {
        assert(h[2 * i] == p[2 * i + 2]);
        assert(h[2 * i + 1] == p[(2 * i + 1) + 2]);
        assert((2 * i) / 2 == i);
        assert((2 * i + 1) / 2 == i);
        assert((2 * i) % 2 == 0);
        assert((2 * i + 1) % 2 == 1);
        lemma_hex_char_roundtrip(b[i] as int / 16);
        lemma_hex_char_roundtrip(b[i] as int % 16);
    }
    assert(hex_decoded(h) =~= b);
}

/// `HexDecode::to_vec` reads hex of either case, with or without a prefix:
/// the lowercase hex text of `b`, bare, and its uppercase hex text behind
/// `0X`, both read back as `b`.
pub proof fn law_to_vec_reads_either_case(b: Seq<u8>)
    ensures
        is_hex_text(strip_hex_prefix_any_case(encode_utf8(hex_encoded(b)))),
        hex_decoded(strip_hex_prefix_any_case(encode_utf8(hex_encoded(b)))) == b,
        is_hex_text(strip_hex_prefix_any_case(encode_utf8("0X"@ + hex_encoded_upper(b)))),
        hex_decoded(strip_hex_prefix_any_case(encode_utf8("0X"@ + hex_encoded_upper(b)))) == b,
{
    lemma_hex_text_roundtrip(b);
    let lower = encode_utf8(hex_encoded(b));
    if lower.len() >= 2 {
        assert(is_hex_digit(lower[1]));
    }
    assert(strip_hex_prefix_any_case(lower) == lower);
    reveal_strlit("0X");
    lemma_hex_upper_digits(b);
    let u = hex_encoded_upper(b);
    let c = "0X"@ + u;
    assert forall|i: int| 0 <= i < c.len() implies '\0' <= #[trigger] c[i] <= '\u{7f}' by {
        if i >= 2 {
            assert(c[i] == u[i - 2]);
        }
    }
    vstd::utf8::is_ascii_chars_encode_utf8(c);
    lemma_hex_chars_spell(u, b);
    let bytes = encode_utf8(c);
    assert(bytes[0] == 48u8);
    assert(bytes[1] == 88u8);
    assert forall|j: int| 0 <= j < bytes.skip(2).len() implies #[trigger] bytes.skip(2)[j]
        == encode_utf8(u)[j] by {
        assert(c[j + 2] == u[j]);
    }
    assert(bytes.skip(2) =~= encode_utf8(u));
}

/// An `i64` read from a 256-bit integer converts back to the same 256-bit
/// value.
pub proof fn law_u256_to_i64_from_i64(x: U256)
    requires
        u256_value(x) <= i64::MAX,
    ensures
        u256_value(x) as i64 >= 0,
        (u256_value(x) as i64) as int == u256_value(x),
{
}

/// An integer token converts to an `i64` exactly when its value fits: a
/// value of at most `i64::MAX` comes back as itself, a larger one gives
/// none, and a token that is not an integer gives none.
pub proof fn law_token_i64_fits(t: AbiToken)
    ensures
        t matches AbiToken::Int(n) ==> (u256_value(n) <= i64::MAX <==> token_i64(t) is Some),
        t matches AbiToken::Uint(n) ==> (u256_value(n) <= i64::MAX <==> token_i64(t) is Some),
        t matches AbiToken::Int(n) ==> (token_i64(t) matches Some(v) ==> v as int == u256_value(n)),
        t matches AbiToken::Uint(n) ==> (token_i64(t) matches Some(v) ==> v as int == u256_value(n)),
        !(t is Int || t is Uint) ==> token_i64(t) is None,
{
}

} // verus!
