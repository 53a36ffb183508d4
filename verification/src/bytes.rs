use vstd::prelude::*;
use vstd::utf8::{decode_utf8, valid_utf8};

verus! {

/// The `n` bytes of `v` modulo `256^n`, most significant byte first.
pub open spec fn be_bytes(v: int, n: nat) -> Seq<u8>
    decreases n,
{
    if n == 0 {
        Seq::empty()
    } else {
        be_bytes(v / 256, (n - 1) as nat).push((v % 256) as u8)
    }
}

/// The unsigned value of `s` read most significant byte first.
pub open spec fn be_value(s: Seq<u8>) -> nat
    decreases s.len(),
{
    if s.len() == 0 {
        0
    } else {
        be_value(s.drop_last()) * 256 + s.last() as nat
    }
}

pub proof fn lemma_be_bytes_len(v: int, n: nat)
    ensures
        be_bytes(v, n).len() == n,
    decreases n,
{
    if n > 0 {
        lemma_be_bytes_len(v / 256, (n - 1) as nat);
    }
}

/// `256^n`: the number of values that `n` bytes can hold.
pub open spec fn byte_modulus(n: nat) -> nat
    decreases n,
{
    if n == 0 {
        1
    } else {
        256 * byte_modulus((n - 1) as nat)
    }
}

/// Reading back the `n` big-endian bytes of a value below `256^n` gives the
/// value.
pub proof fn lemma_be_value_of_bytes(v: int, n: nat)
    requires
        0 <= v < byte_modulus(n),
    ensures
        be_value(be_bytes(v, n)) == v,
    decreases n,
{
    if n > 0 {
        lemma_be_value_of_bytes(v / 256, (n - 1) as nat);
        let s = be_bytes(v, n);
        assert(s.drop_last() =~= be_bytes(v / 256, (n - 1) as nat));
    }
}

/// The moduli of the widths that integers are written in.
pub proof fn lemma_byte_moduli()
    ensures
        byte_modulus(1) == 0x100,
        byte_modulus(2) == 0x1_0000,
        byte_modulus(4) == 0x1_0000_0000,
        byte_modulus(8) == 0x1_0000_0000_0000_0000,
{
    reveal_with_fuel(byte_modulus, 9);
}

/// Appends the `n` low-order bytes of `v` to `buf`, most significant first.
pub fn push_be(buf: &mut Vec<u8>, v: u64, n: usize)
    requires
        n <= 8,
    ensures
        final(buf)@ == old(buf)@ + be_bytes(v as int, n as nat),
    decreases n,
{
    if n > 0 {
        push_be(buf, v / 256, n - 1);
        buf.push((v % 256) as u8);
    } else {
        assert(old(buf)@ + be_bytes(v as int, 0) =~= old(buf)@);
    }
}


/// Converts `bytes` with `String::from_utf8`. Claimed of it, as its
/// documentation says: it succeeds exactly when the bytes are valid UTF-8,
/// and the string then holds the characters they encode.
#[verifier::external_body]
pub(crate) fn string_from_utf8(bytes: Vec<u8>) -> (res: Option<String>)
    ensures
        res is Some <==> valid_utf8(bytes@),
        res matches Some(s) ==> s@ == decode_utf8(bytes@),
{
    String::from_utf8(bytes).ok()
}

} // verus!
