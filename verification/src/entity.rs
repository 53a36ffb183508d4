use vstd::prelude::*;
use vstd::string::StringSliceAdditionalSpecFns;
use vstd::utf8::{encode_utf8, encode_utf8_decode_utf8};

use byteorder::{BigEndian, WriteBytesExt};

use crate::bytes::{be_bytes, be_value, lemma_be_bytes_len, lemma_be_value_of_bytes, lemma_byte_moduli};
use crate::crypto::{keccak256, keccak256_digest};
use crate::tars_serial::{
    append_bytes, bytes_field, int32_field, int64_field, law_string_field_layout,
    law_string_field_reads_back, string_field, TarsOutputStream, TARS_MAX_STRING_LENGTH,
};

verus! {

/// A JSON-RPC request: the method and its parameters.
#[derive(Debug)]
pub struct InvokeParam<T> {
    pub jsonrpc: String,
    pub method: String,
    pub id: u64,
    pub params: T,
}

/// A JSON-RPC reply: the result, or the error the node reported.
#[derive(Debug)]
pub struct InvokeResult<T> {
    pub jsonrpc: String,
    pub id: u64,
    pub result: Option<T>,
    pub error: Option<InvokeError>,
}

/// The result of a read-only contract call.
#[derive(Debug)]
pub struct CallResult {
    pub block_number: u64,
    pub output: String,
    pub status: i32,
}

/// The error object of a JSON-RPC reply.
#[derive(Debug)]
pub struct InvokeError {
    pub code: i32,
    pub message: String,
    pub data: Option<String>,
}

impl<T> InvokeParam<T> {
    /// A JSON-RPC 2.0 request with id 1 for `method` with parameters `t`.
    pub fn new(method: String, t: T) -> (p: Self)
        ensures
            p.jsonrpc@ == "2.0"@,
            p.method == method,
            p.id == 1,
            p.params == t,
    {
        InvokeParam { jsonrpc: "2.0".to_owned(), method, id: 1, params: t }
    }
}

/// The node ids of one group.
#[derive(Debug)]
pub struct GroupNodeIDInfo {
    pub group: String,
    pub node_id_list: Vec<String>,
}

/// A peer of the node.
#[derive(Debug)]
pub struct Peers {
    pub end_point: String,
    pub p2p_node_id: String,
    pub group_node_id_info: Vec<GroupNodeIDInfo>,
}

/// A transaction as the chain stores it.
#[derive(Debug)]
pub struct Transaction {
    pub version: i32,
    pub chain_id: String,
    pub group_id: String,
    pub block_limit: i64,
    pub nonce: String,
    pub to: String,
    pub data: Option<Vec<u8>>,
    pub abi: String,
    pub import_time: u64,
    pub hash: String,
    pub input: String,
    pub signature: String,
}

/// The UTF-8 bytes of a string.
pub open spec fn utf8(s: String) -> Seq<u8> {
    encode_utf8(s@)
}

/// The call data of a transaction; none counts as empty.
pub open spec fn data_bytes(tx: Transaction) -> Seq<u8> {
    match tx.data {
        Some(d) => d@,
        None => Seq::empty(),
    }
}

/// The Tars fields of a transaction body, tags 1 to 8: version, chain id,
/// group id, block limit, nonce, the recipient only when it is not empty,
/// the call data (empty when there is none), the ABI only when it is not
/// empty.
pub open spec fn transaction_fields(tx: Transaction) -> Seq<u8> {
    int32_field(tx.version, 1) + string_field(utf8(tx.chain_id), 2) + string_field(
        utf8(tx.group_id),
        3,
    ) + int64_field(tx.block_limit, 4) + string_field(utf8(tx.nonce), 5) + (if tx.to@.len() == 0 {
        Seq::<u8>::empty()
    } else {
        string_field(utf8(tx.to), 6)
    }) + bytes_field(data_bytes(tx), 7) + (if tx.abi@.len() == 0 {
        Seq::<u8>::empty()
    } else {
        string_field(utf8(tx.abi), 8)
    })
}

/// Every string that the Tars body of `tx` carries fits in a Tars string.
pub open spec fn fits_tars(tx: Transaction) -> bool {
    &&& utf8(tx.chain_id).len() <= TARS_MAX_STRING_LENGTH
    &&& utf8(tx.group_id).len() <= TARS_MAX_STRING_LENGTH
    &&& utf8(tx.nonce).len() <= TARS_MAX_STRING_LENGTH
    &&& utf8(tx.to).len() <= TARS_MAX_STRING_LENGTH
    &&& utf8(tx.abi).len() <= TARS_MAX_STRING_LENGTH
}

/// The bytes a transaction hash is taken over: the version (4 bytes, big
/// endian), chain id, group id, block limit (8 bytes, big endian), nonce,
/// recipient, call data and ABI, the strings as UTF-8.
pub open spec fn hash_preimage(tx: Transaction) -> Seq<u8> {
    be_bytes(tx.version as u32 as int, 4) + utf8(tx.chain_id) + utf8(tx.group_id) + be_bytes(
        tx.block_limit as u64 as int,
        8,
    ) + utf8(tx.nonce) + utf8(tx.to) + data_bytes(tx) + utf8(tx.abi)
}

impl Default for Transaction {
    /// Version 0 on chain `chain0`, group `group0`, nonce `0`; every other
    /// field empty or zero.
    fn default() -> (tx: Self)
        ensures
            tx.version == 0,
            tx.chain_id@ == "chain0"@,
            tx.group_id@ == "group0"@,
            tx.block_limit == 0,
            tx.nonce@ == "0"@,
            tx.to@.len() == 0,
            tx.data is None,
            tx.abi@.len() == 0,
            tx.import_time == 0,
            tx.hash@.len() == 0,
            tx.input@.len() == 0,
            tx.signature@.len() == 0,
    {
        Self {
            version: 0,
            chain_id: "chain0".to_owned(),
            group_id: "group0".to_owned(),
            block_limit: 0,
            nonce: "0".to_owned(),
            to: String::new(),
            data: None,
            abi: String::new(),
            import_time: 0,
            hash: String::new(),
            input: String::new(),
            signature: String::new(),
        }
    }
}

impl Transaction {
    /// The Keccak-256 digest of the transaction's hash preimage.
    pub fn calc_tx_hash(&self) -> (h: [u8; 32])
        ensures
            h@ == keccak256_digest(hash_preimage(*self)),
    {
        let mut tx_data_vec: Vec<u8> = Vec::with_capacity(1024);
        write_i32_be(&mut tx_data_vec, self.version);
        append_bytes(&mut tx_data_vec, self.chain_id.as_str().as_bytes());
        append_bytes(&mut tx_data_vec, self.group_id.as_str().as_bytes());
        write_i64_be(&mut tx_data_vec, self.block_limit);
        append_bytes(&mut tx_data_vec, self.nonce.as_str().as_bytes());
        append_bytes(&mut tx_data_vec, self.to.as_str().as_bytes());
        if let Some(ref data) = self.data {
            append_bytes(&mut tx_data_vec, data.as_slice());
        }
        append_bytes(&mut tx_data_vec, self.abi.as_str().as_bytes());
        assert(tx_data_vec@ =~= hash_preimage(*self));
        keccak256(tx_data_vec.as_slice())
    }

    /// Appends the Tars fields of the transaction body to `os`.
    pub fn write_to(&self, os: &mut TarsOutputStream)
        requires
            fits_tars(*self),
        ensures
            final(os).buf@ == old(os).buf@ + transaction_fields(*self),
    {
        os.write_int32(self.version, 1);
        os.write_string(self.chain_id.as_str(), 2);
        os.write_string(self.group_id.as_str(), 3);
        os.write_int64(self.block_limit, 4);
        os.write_string(self.nonce.as_str(), 5);
        if !self.to.as_str().is_empty() {
            os.write_string(self.to.as_str(), 6);
        }
        if let Some(ref data) = self.data {
            os.write_bytes(data.as_slice(), 7);
        } else {
            let empty: Vec<u8> = Vec::new();
            os.write_bytes(empty.as_slice(), 7);
        }
        if !self.abi.as_str().is_empty() {
            os.write_string(self.abi.as_str(), 8);
        }
        assert(os.buf@ =~= old(os).buf@ + transaction_fields(*self));
    }
}

/// Calls `byteorder::WriteBytesExt::write_i32::<BigEndian>` on the vector.
/// Claimed of it: the four big-endian bytes of `n` are appended; writing to
/// a vector cannot fail.
#[verifier::external_body]
fn write_i32_be(buf: &mut Vec<u8>, n: i32)
    ensures
        final(buf)@ == old(buf)@ + be_bytes(n as u32 as int, 4),
{
    buf.write_i32::<BigEndian>(n).expect("writing to a vector does not fail");
}

/// Calls `byteorder::WriteBytesExt::write_i64::<BigEndian>` on the vector.
/// Claimed of it: the eight big-endian bytes of `n` are appended; writing to
/// a vector cannot fail.
#[verifier::external_body]
fn write_i64_be(buf: &mut Vec<u8>, n: i64)
    ensures
        final(buf)@ == old(buf)@ + be_bytes(n as u64 as int, 8),
{
    buf.write_i64::<BigEndian>(n).expect("writing to a vector does not fail");
}

/// A transaction's hash and its Tars body cover only the fields that are
/// signed: two transactions that agree on version, chain, group, block
/// limit, nonce, recipient, call data and ABI have the same hash preimage
/// and the same body, whatever their import time, hash, input and
/// signature.
pub proof fn law_signed_fields_only(a: Transaction, b: Transaction)
    requires
        a.version == b.version,
        a.chain_id@ == b.chain_id@,
        a.group_id@ == b.group_id@,
        a.block_limit == b.block_limit,
        a.nonce@ == b.nonce@,
        a.to@ == b.to@,
        data_bytes(a) == data_bytes(b),
        a.abi@ == b.abi@,
    ensures
        hash_preimage(a) == hash_preimage(b),
        transaction_fields(a) == transaction_fields(b),
{
}

/// The hash preimage lays the signed fields end to end: the version's four
/// big-endian bytes, the chain id, the group id, the block limit's eight
/// big-endian bytes, ..., and at its very end the call data followed by the
/// ABI's UTF-8 bytes; in all it holds the twelve bytes of the two integers
/// and the bytes of every string and of the call data.
pub proof fn law_hash_preimage_layout(tx: Transaction)
    ensures
        ({
            let p = hash_preimage(tx);
            let c = utf8(tx.chain_id).len() as int;
            let g = utf8(tx.group_id).len() as int;
            let d = data_bytes(tx).len() as int;
            let a = utf8(tx.abi).len() as int;
            &&& p.len() == 12 + c + g + utf8(tx.nonce).len() + utf8(tx.to).len() + d + a
            &&& be_value(p.take(4)) == tx.version as u32 as int
            &&& p.subrange(4, 4 + c) == utf8(tx.chain_id)
            &&& p.subrange(4 + c, 4 + c + g) == utf8(tx.group_id)
            &&& be_value(p.subrange(4 + c + g, 12 + c + g)) == tx.block_limit as u64 as int
            &&& p.subrange(p.len() - a - d, p.len() - a) == data_bytes(tx)
            &&& p.skip(p.len() - a) == utf8(tx.abi)
        }),
{
    let p = hash_preimage(tx);
    let v = be_bytes(tx.version as u32 as int, 4);
    let l = be_bytes(tx.block_limit as u64 as int, 8);
    lemma_be_bytes_len(tx.version as u32 as int, 4);
    lemma_be_bytes_len(tx.block_limit as u64 as int, 8);
    lemma_byte_moduli();
    lemma_be_value_of_bytes(tx.version as u32 as int, 4);
    lemma_be_value_of_bytes(tx.block_limit as u64 as int, 8);
    let c = utf8(tx.chain_id).len() as int;
    let g = utf8(tx.group_id).len() as int;
    let d = data_bytes(tx).len() as int;
    let a = utf8(tx.abi).len() as int;
    assert(p.take(4) =~= v);
    assert(p.subrange(4, 4 + c) =~= utf8(tx.chain_id));
    assert(p.subrange(4 + c, 4 + c + g) =~= utf8(tx.group_id));
    assert(p.subrange(4 + c + g, 12 + c + g) =~= l);
    assert(p.subrange(p.len() - a - d, p.len() - a) =~= data_bytes(tx));
    assert(p.skip(p.len() - a) =~= utf8(tx.abi));
}

/// The ABI is part of what is signed: two transactions that differ only in
/// their ABI text have different hash preimages.
pub proof fn law_hash_preimage_covers_abi(a: Transaction, b: Transaction)
    requires
        a.version == b.version,
        a.chain_id@ == b.chain_id@,
        a.group_id@ == b.group_id@,
        a.block_limit == b.block_limit,
        a.nonce@ == b.nonce@,
        a.to@ == b.to@,
        data_bytes(a) == data_bytes(b),
        a.abi@ != b.abi@,
    ensures
        hash_preimage(a) != hash_preimage(b),
{
    law_hash_preimage_layout(a);
    law_hash_preimage_layout(b);
    if hash_preimage(a) == hash_preimage(b) {
        assert(utf8(a.abi) == utf8(b.abi));
        encode_utf8_decode_utf8(a.abi@);
        encode_utf8_decode_utf8(b.abi@);
    }
}

/// The ABI is part of the Tars body too: two transactions that differ only
/// in their ABI text have different bodies.
pub proof fn law_transaction_fields_cover_abi(a: Transaction, b: Transaction)
    requires
        fits_tars(a),
        fits_tars(b),
        a.version == b.version,
        a.chain_id@ == b.chain_id@,
        a.group_id@ == b.group_id@,
        a.block_limit == b.block_limit,
        a.nonce@ == b.nonce@,
        a.to@ == b.to@,
        data_bytes(a) == data_bytes(b),
        a.abi@ != b.abi@,
    ensures
        transaction_fields(a) != transaction_fields(b),
{
    let abi_part = |tx: Transaction|
        if tx.abi@.len() == 0 {
            Seq::<u8>::empty()
        } else {
            string_field(utf8(tx.abi), 8)
        };
    let head = transaction_fields(a).take(
        transaction_fields(a).len() - abi_part(a).len(),
    );
    assert(transaction_fields(a) =~= head + abi_part(a));
    assert(transaction_fields(b) =~= head + abi_part(b));
    if transaction_fields(a) == transaction_fields(b) {
        assert(abi_part(a) =~= transaction_fields(a).skip(head.len() as int));
        assert(abi_part(b) =~= transaction_fields(b).skip(head.len() as int));
        law_string_field_layout(utf8(a.abi), 8);
        law_string_field_layout(utf8(b.abi), 8);
        law_string_field_reads_back(utf8(a.abi), 8);
        law_string_field_reads_back(utf8(b.abi), 8);
        encode_utf8_decode_utf8(a.abi@);
        encode_utf8_decode_utf8(b.abi@);
        if a.abi@.len() != 0 && b.abi@.len() != 0 {
            assert(utf8(a.abi) == utf8(b.abi));
        }
    }
}

/// One log entry of a receipt, as hex text.
#[derive(Debug)]
pub struct LogEntry {
    pub address: String,
    pub data: String,
    pub topics: Vec<String>,
}

/// The receipt of an executed transaction.
#[derive(Debug)]
pub struct TransactionReceipt {
    pub block_number: u64,
    pub checksum_contract_address: String,
    pub contract_address: String,
    pub extra_data: String,
    pub from: String,
    pub gas_used: String,
    pub hash: String,
    pub input: String,
    pub log_entries: Vec<LogEntry>,
    pub message: String,
    pub output: String,
    pub receipt_proof: Vec<String>,
    pub status: i32,
    pub to: String,
    pub transaction_hash: String,
    pub tx_receipt_proof: Vec<String>,
    pub version: i32,
}

/// A parent reference of a block.
#[derive(Debug)]
pub struct BlockParentInfo {
    pub block_hash: String,
    pub block_number: u64,
}

/// A sealer's signature on a block.
#[derive(Debug)]
pub struct Signature {
    pub sealer_index: u64,
    pub signature: String,
}

/// A block as the node reports it.
#[derive(Debug)]
pub struct Block {
    pub consensus_weights: Vec<u64>,
    pub extra_data: String,
    pub gas_used: String,
    pub hash: String,
    pub number: u64,
    pub parent_info: Vec<BlockParentInfo>,
    pub receipts_root: String,
    pub sealer: u64,
    pub sealer_list: Vec<String>,
    pub signature_list: Vec<Signature>,
    pub state_root: String,
    pub timestamp: u64,
    pub transactions: Vec<Transaction>,
    pub txs_root: String,
    pub version: u64,
}

} // verus!
