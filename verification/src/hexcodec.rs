use vstd::prelude::*;
use vstd::string::StringSliceAdditionalSpecFns;
use vstd::utf8::encode_utf8;

verus! {

/// `b` is an ASCII hex digit, of either case.
pub open spec fn is_hex_digit(b: u8) -> bool {
    (48 <= b <= 57) || (65 <= b <= 70) || (97 <= b <= 102)
}

/// The value of the hex digit `b`.
pub open spec fn hex_digit_value(b: u8) -> int {
    if 48 <= b <= 57 {
        b - 48
    } else if 65 <= b <= 70 {
        b - 55
    } else {
        b - 87
    }
}

/// `s` is a whole hex text: an even number of hex digits.
pub open spec fn is_hex_text(s: Seq<u8>) -> bool {
    &&& s.len() % 2 == 0
    &&& forall|i: int| 0 <= i < s.len() ==> is_hex_digit(#[trigger] s[i])
}

/// The bytes that the hex text `s` spells, two digits per byte, the first
/// digit the high nibble.
pub open spec fn hex_decoded(s: Seq<u8>) -> Seq<u8> {
    Seq::new(
        s.len() / 2,
        |i: int| (hex_digit_value(s[2 * i]) * 16 + hex_digit_value(s[2 * i + 1])) as u8,
    )
}

/// The lowercase hex digit of the nibble `n`.
pub open spec fn hex_char(n: int) -> char {
    if n < 10 {
        (48 + n) as char
    } else {
        (87 + n) as char
    }
}

/// The lowercase hex text of `b`: two digits per byte, high nibble first.
pub open spec fn hex_encoded(b: Seq<u8>) -> Seq<char> {
    Seq::new(
        b.len() * 2,
        |i: int|
            if i % 2 == 0 {
                hex_char(b[i / 2] as int / 16)
            } else {
                hex_char(b[i / 2] as int % 16)
            },
    )
}

/// Every hex digit the encoder writes is an ASCII hex digit that reads back
/// as the nibble it was written for.
pub proof fn lemma_hex_char_roundtrip(n: int)
    requires
        0 <= n < 16,
    ensures
        is_hex_digit(hex_char(n) as u8),
        hex_digit_value(hex_char(n) as u8) == n,
        '\0' <= hex_char(n) <= '\u{7f}',
{
}

/// The hex text of `b` as UTF-8 bytes is a hex text that spells `b`.
pub proof fn lemma_hex_text_roundtrip(b: Seq<u8>)
    ensures
        encode_utf8(hex_encoded(b)).len() == 2 * b.len(),
        forall|j: int|
            0 <= j < 2 * b.len() ==> #[trigger] encode_utf8(hex_encoded(b))[j] == hex_encoded(
                b,
            )[j] as u8,
        is_hex_text(encode_utf8(hex_encoded(b))),
        hex_decoded(encode_utf8(hex_encoded(b))) == b,
{
    let c = hex_encoded(b);
    assert forall|i: int| 0 <= i < c.len() implies '\0' <= #[trigger] c[i] <= '\u{7f}' by {
        let n = if i % 2 == 0 {
            b[i / 2] as int / 16
        } else {
            b[i / 2] as int % 16
        };
        lemma_hex_char_roundtrip(n);
    }
    vstd::utf8::is_ascii_chars_encode_utf8(c);
    let h = encode_utf8(c);
    assert forall|j: int| 0 <= j < h.len() implies is_hex_digit(#[trigger] h[j]) by {
        let n = if j % 2 == 0 {
            b[j / 2] as int / 16
        } else {
            b[j / 2] as int % 16
        };
        lemma_hex_char_roundtrip(n);
        assert(h[j] == c[j] as u8);
    }
    assert forall|i: int| 0 <= i < b.len() implies #[trigger] hex_decoded(h)[i] == b[i] by {
        assert(h[2 * i] == c[2 * i] as u8);
        assert(h[2 * i + 1] == c[2 * i + 1] as u8);
        assert((2 * i) / 2 == i);
        assert((2 * i + 1) / 2 == i);
        assert((2 * i) % 2 == 0);
        assert((2 * i + 1) % 2 == 1);
        lemma_hex_char_roundtrip(b[i] as int / 16);
        lemma_hex_char_roundtrip(b[i] as int % 16);
    }
    assert(hex_decoded(h) =~= b);
}

/// The uppercase hex digit of the nibble `n`.
pub open spec fn hex_char_upper(n: int) -> char {
    if n < 10 {
        (48 + n) as char
    } else {
        (55 + n) as char
    }
}

/// The nibble of `b` that digit `j` of its hex text stands for: the high
/// nibble of byte `j / 2` for even `j`, the low one for odd `j`.
pub open spec fn nibble(b: Seq<u8>, j: int) -> int {
    if j % 2 == 0 {
        b[j / 2] as int / 16
    } else {
        b[j / 2] as int % 16
    }
}

/// The uppercase hex text of `b`: two digits per byte, high nibble first.
pub open spec fn hex_encoded_upper(b: Seq<u8>) -> Seq<char> {
    Seq::new(b.len() * 2, |i: int| hex_char_upper(nibble(b, i)))
}

/// ASCII characters that are hex digits spelling the nibbles of `b` give,
/// as UTF-8 bytes, a hex text that spells `b`.
pub proof fn lemma_hex_chars_spell(c: Seq<char>, b: Seq<u8>)
    requires
        c.len() == 2 * b.len(),
        forall|j: int|
            0 <= j < c.len() ==> '\0' <= #[trigger] c[j] <= '\u{7f}' && is_hex_digit(c[j] as u8)
                && hex_digit_value(c[j] as u8) == nibble(b, j),
    ensures
        encode_utf8(c).len() == c.len(),
        forall|j: int| 0 <= j < c.len() ==> #[trigger] encode_utf8(c)[j] == c[j] as u8,
        is_hex_text(encode_utf8(c)),
        hex_decoded(encode_utf8(c)) == b,
{
    vstd::utf8::is_ascii_chars_encode_utf8(c);
    let h = encode_utf8(c);
    assert forall|j: int| 0 <= j < h.len() implies is_hex_digit(#[trigger] h[j]) by {
        assert(h[j] == c[j] as u8);
    }
    assert forall|i: int| 0 <= i < b.len() implies #[trigger] hex_decoded(h)[i] == b[i] by {
        assert(h[2 * i] == c[2 * i] as u8);
        assert(h[2 * i + 1] == c[2 * i + 1] as u8);
        assert(nibble(b, 2 * i) == b[i] as int / 16);
        assert(nibble(b, 2 * i + 1) == b[i] as int % 16);
    }
    assert(hex_decoded(h) =~= b);
}

/// The uppercase hex text of `b` is ASCII hex digits spelling `b`.
pub proof fn lemma_hex_upper_digits(b: Seq<u8>)
    ensures
        forall|j: int|
            0 <= j < hex_encoded_upper(b).len() ==> '\0' <= #[trigger] hex_encoded_upper(b)[j]
                <= '\u{7f}' && is_hex_digit(hex_encoded_upper(b)[j] as u8) && hex_digit_value(
                hex_encoded_upper(b)[j] as u8,
            ) == nibble(b, j),
{
}

/// Calls `hex::decode` on `data`. Claimed of it: it succeeds exactly when
/// `data` has an even length and holds only hex digits (either case), and
/// then gives the bytes that the digit pairs spell. The error's kind is
/// dropped.
#[verifier::external_body]
pub(crate) fn hex_decode(data: &[u8]) -> (res: Option<Vec<u8>>)
    ensures
        res is Some <==> is_hex_text(data@),
        res matches Some(v) ==> v@ == hex_decoded(data@),
{
    hex::decode(data).ok()
}

/// Calls `hex::encode` on `data`. Claimed of it: the result is the
/// lowercase hex text of the bytes, two digits per byte.
#[verifier::external_body]
pub(crate) fn hex_encode(data: &[u8]) -> (res: String)
    ensures
        res@ == hex_encoded(data@),
{
    hex::encode(data)
}


/// `s` without a leading lowercase `0x`.
pub open spec fn strip_hex_prefix(s: Seq<u8>) -> Seq<u8> {
    if s.len() >= 2 && s[0] == 48 && s[1] == 120 {
        s.skip(2)
    } else {
        s
    }
}

/// The bytes that `rustc-hex` skips between digits: space, CR, LF and tab.
pub open spec fn is_hex_space(b: u8) -> bool {
    b == 32 || b == 13 || b == 10 || b == 9
}

/// The digits of a 160-bit hash text: without a leading `0x`, and with
/// spaces, CRs, LFs and tabs left out.
pub open spec fn h160_digits(s: Seq<u8>) -> Seq<u8> {
    strip_hex_prefix(s).filter(|b: u8| !is_hex_space(b))
}

/// `s` is the text of a 160-bit hash: its digits are exactly 40 hex digits.
pub open spec fn is_h160_text(s: Seq<u8>) -> bool {
    h160_digits(s).len() == 40 && is_hex_text(h160_digits(s))
}

/// The text of the error that `<H160 as FromStr>::from_str` reports on the
/// text `address`.
pub uninterp spec fn h160_error_text(address: Seq<char>) -> Seq<char>;

/// Parses `address` with `<H160 as FromStr>::from_str` (fixed-hash, over
/// rustc-hex's digit iterator). Claimed of it, as their source shows: it
/// succeeds exactly when, after an optional lowercase `0x` and with spaces,
/// CRs, LFs and tabs skipped, the text is exactly 40 hex digits, and then
/// gives the 20 bytes they spell. The error is handed back as its text, a
/// function of the input alone.
#[verifier::external_body]
pub(crate) fn h160_from_str(address: &str) -> (res: Result<[u8; 20], String>)
    ensures
        res is Ok <==> is_h160_text(address.spec_bytes()),
        res matches Ok(b) ==> b@ == hex_decoded(h160_digits(address.spec_bytes())),
        res matches Err(e) ==> e@ == h160_error_text(address@),
{
    match <ethabi::ethereum_types::H160 as core::str::FromStr>::from_str(address) {
        Ok(h) => Ok(h.0),
        Err(e) => Err(e.to_string()),
    }
}

} // verus!
