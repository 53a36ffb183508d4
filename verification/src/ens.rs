use vstd::prelude::*;
use vstd::string::StringSliceAdditionalSpecFns;

use crate::crypto::{keccak256, keccak256_digest};
use crate::tars_serial::append_bytes;

verus! {

/// The byte of the label separator `.`.
pub open spec fn dot() -> u8 {
    46
}

/// The index of the first `.` in `s`, or `s.len()` when there is none.
pub open spec fn first_dot(s: Seq<u8>) -> int
    decreases s.len(),
{
    if s.len() == 0 {
        0
    } else if s[0] == dot() {
        0
    } else {
        1 + first_dot(s.drop_first())
    }
}

/// `s` holds no `.`.
pub open spec fn dot_free(s: Seq<u8>) -> bool {
    forall|i: int| 0 <= i < s.len() ==> s[i] != dot()
}

/// The root node: 32 zero bytes.
pub open spec fn zero_node() -> Seq<u8> {
    Seq::new(32, |i: int| 0u8)
}

/// The node of the dotted name `s` (UTF-8 bytes, not empty as a whole): the
/// digest of the node of what follows the first label, or of the root node
/// when there is only one label, followed by the digest of the first label.
pub open spec fn name_node(s: Seq<u8>) -> Seq<u8>
    decreases s.len(),
{
    let i = first_dot(s);
    if i >= s.len() {
        keccak256_digest(zero_node() + keccak256_digest(s))
    } else {
        proof {
            lemma_first_dot_bounds(s);
        }
        keccak256_digest(name_node(s.skip(i + 1)) + keccak256_digest(s.take(i)))
    }
}

/// The name hash of the UTF-8 bytes `s`: the root node for the empty name,
/// else the node of the name.
pub open spec fn name_hash(s: Seq<u8>) -> Seq<u8> {
    if s.len() == 0 {
        zero_node()
    } else {
        name_node(s)
    }
}

pub proof fn lemma_first_dot_bounds(s: Seq<u8>)
    ensures
        0 <= first_dot(s) <= s.len(),
        first_dot(s) < s.len() ==> s[first_dot(s)] == dot(),
        dot_free(s.take(first_dot(s))),
        first_dot(s) == s.len() <==> dot_free(s),
    decreases s.len(),
{
    if s.len() > 0 && s[0] != dot() {
        lemma_first_dot_bounds(s.drop_first());
        let i = first_dot(s);
        assert forall|k: int| 0 <= k < i implies s.take(i)[k] != dot() by {
            if k > 0 {
                assert(s.take(i)[k] == s.drop_first().take(i - 1)[k - 1]);
            }
        }
        if dot_free(s) {
            assert forall|k: int| 0 <= k < s.drop_first().len() implies s.drop_first()[k]
                != dot() by {
                assert(s.drop_first()[k] == s[k + 1]);
            }
        }
        if first_dot(s) == s.len() {
            assert forall|k: int| 0 <= k < s.len() implies s[k] != dot() by {
                if k > 0 {
                    assert(s[k] == s.drop_first()[k - 1]);
                }
            }
        }
    }
}

/// The first `.` of `label + [.] + rest`, where `label` holds none, is the
/// one right after `label`.
pub proof fn lemma_first_dot_after_label(label: Seq<u8>, rest: Seq<u8>)
    requires
        dot_free(label),
    ensures
        first_dot(label + seq![dot()] + rest) == label.len(),
    decreases label.len(),
{
    let s = label + seq![dot()] + rest;
    if label.len() > 0 {
        assert(s.drop_first() =~= label.drop_first() + seq![dot()] + rest);
        assert(s[0] == label[0]);
        lemma_first_dot_after_label(label.drop_first(), rest);
    } else {
        assert(s[0] == dot());
    }
}

/// Hashes `label` with Keccak-256: the label hash of ENS.
pub fn labelhash(label: &str) -> (h: [u8; 32])
    ensures
        h@ == keccak256_digest(label.spec_bytes()),
{
    keccak256(label.as_bytes())
}

/// Hashes the UTF-8 bytes of `value` with Keccak-256.
pub fn string_to_byte32(value: &str) -> (h: [u8; 32])
    ensures
        h@ == keccak256_digest(value.spec_bytes()),
{
    keccak256(value.as_bytes())
}

/// The index of the first `.` in `s`, or its length when there is none.
fn find_dot(s: &[u8]) -> (i: usize)
    ensures
        i == first_dot(s@),
{
    let mut i: usize = 0;
    assert(s@.skip(0) =~= s@);
    while i < s.len()
        invariant
            i <= s.len(),
            first_dot(s@) == i + first_dot(s@.skip(i as int)),
        decreases s.len() - i,
    {
        if s[i] == 46u8 {
            assert(s@.skip(i as int)[0] == s@[i as int]);
            return i;
        }
        assert(s@.skip(i as int).drop_first() =~= s@.skip(i + 1));
        i = i + 1;
    }
    assert(s@.skip(i as int).len() == 0);
    i
}

/// The node of a non-empty dotted name given as bytes.
fn name_node_of(s: &[u8]) -> (node: [u8; 32])
    ensures
        node@ == name_node(s@),
    decreases s.len(),
{
    let i = find_dot(s);
    proof {
        lemma_first_dot_bounds(s@);
    }
    let mut combined: Vec<u8> = Vec::with_capacity(64);
    if i >= s.len() {
        let zero = [0u8; 32];
        append_bytes(&mut combined, zero.as_slice());
        let label_hash = keccak256(s);
        append_bytes(&mut combined, label_hash.as_slice());
        assert(zero@ =~= zero_node());
    } else {
        let rest = &s[i + 1..s.len()];
        let label = &s[0..i];
        let node = name_node_of(rest);
        append_bytes(&mut combined, node.as_slice());
        let label_hash = keccak256(label);
        append_bytes(&mut combined, label_hash.as_slice());
        assert(rest@ =~= s@.skip(i + 1));
        assert(label@ =~= s@.take(i as int));
    }
    keccak256(combined.as_slice())
}

/// The ENS name hash of `name`: 32 zero bytes for the empty name; else, with
/// the node starting at 32 zero bytes and the labels (split at `.`) taken
/// from right to left, the node becomes the digest of the node followed by
/// the digest of the label.
pub fn namehash(name: &str) -> (h: [u8; 32])
    ensures
        h@ == name_hash(name.spec_bytes()),
{
    let bytes = name.as_bytes();
    if bytes.len() == 0 {
        let node = [0u8; 32];
        assert(node@ =~= zero_node());
        return node;
    }
    name_node_of(bytes)
}

/// The name hash of the empty name is the root node.
pub proof fn law_namehash_empty()
    ensures
        name_hash(Seq::<u8>::empty()) == zero_node(),
{
}

/// A name of one label hashes to the digest of the root node followed by
/// the label hash.
pub proof fn law_namehash_single_label(label: Seq<u8>)
    requires
        label.len() > 0,
        dot_free(label),
    ensures
        name_hash(label) == keccak256_digest(zero_node() + keccak256_digest(label)),
{
    lemma_first_dot_bounds(label);
}

/// The ENS recursion: the hash of `label.rest` is the digest of the hash of
/// `rest` followed by the label hash of `label`.
pub proof fn law_namehash_first_label(label: Seq<u8>, rest: Seq<u8>)
    requires
        dot_free(label),
        rest.len() > 0,
    ensures
        name_hash(label + seq![dot()] + rest) == keccak256_digest(
            name_hash(rest) + keccak256_digest(label),
        ),
{
    let s = label + seq![dot()] + rest;
    lemma_first_dot_after_label(label, rest);
    assert(s.skip(label.len() + 1int) =~= rest);
    assert(s.take(label.len() as int) =~= label);
}

} // verus!
