use vstd::prelude::*;
use vstd::string::{StringExecFns, StringSliceAdditionalSpecFns};
use vstd::utf8::{encode_utf8, is_ascii_chars};

use crate::crypto::{keccak256_digest, random_bytes_32, secp256k1_recoverable_signature, sign_recoverable};
use crate::entity::{
    fits_tars, hash_preimage, transaction_fields, utf8, InvokeError, InvokeParam, InvokeResult,
    Transaction,
};
use crate::error::BcosError;
use crate::hexcodec::{hex_char, hex_decode, hex_decoded, hex_encode, hex_encoded, is_hex_text};
use crate::tars_serial::{append_bytes, bytes_field, head_bytes, TarsOutputStream, TarsType, TARS_MAX_STRING_LENGTH};
use crate::utils::{hex_encode_with_prefix, is_private_key_text, make_private_key, private_key_bytes};

verus! {

/// A JSON value of a request's parameter list.
#[derive(Debug)]
pub enum RpcValue {
    Str(String),
    Number(u64),
    Bool(bool),
}

/// The settings of a client of one node: the group, chain and node it
/// speaks to, the node's URL, and the TLS material (DER bytes) it uses.
#[derive(Debug)]
pub struct BcosApi {
    pub group_id: String,
    pub chain_id: String,
    pub node_id: String,
    pub node_url: String,
    pub certs: Vec<Vec<u8>>,
    pub key: Vec<u8>,
    pub root_certs: Vec<Vec<u8>>,
}

/// A nonce as the client makes them: `CERX` and the lowercase hex of 32 bytes.
pub open spec fn nonce_text(bytes: Seq<u8>) -> Seq<char> {
    "CERX"@ + hex_encoded(bytes)
}

/// The transaction as it is signed: with the given nonce, chain and group.
pub open spec fn prepared_transaction(
    tx: Transaction,
    nonce: String,
    chain_id: String,
    group_id: String,
) -> Transaction {
    Transaction { nonce: nonce, chain_id: chain_id, group_id: group_id, ..tx }
}

/// The signature bytes of a transaction hash: the 64-byte compact signature
/// followed by the recovery id.
pub open spec fn signature_bytes(secret: Seq<u8>, hash: Seq<u8>) -> Seq<u8> {
    secp256k1_recoverable_signature(secret, hash).0.push(
        secp256k1_recoverable_signature(secret, hash).1 as u8,
    )
}

/// The Tars envelope of a signed transaction: the body as a struct with tag
/// 1, then the hash (tag 2) and the signature (tag 3) as byte lists.
pub open spec fn transaction_envelope(tx: Transaction, hash: Seq<u8>, signature: Seq<u8>) -> Seq<
    u8,
> {
    head_bytes(TarsType::StructBegin, 1) + transaction_fields(tx) + head_bytes(
        TarsType::StructEnd,
        0,
    ) + bytes_field(hash, 2) + bytes_field(signature, 3)
}

/// The text of a signed transaction: `0x` and the hex of its envelope, with
/// the transaction's own hash, signed with the secret key `secret`.
pub open spec fn signed_transaction_text(tx: Transaction, secret: Seq<u8>) -> Seq<char> {
    let hash = keccak256_digest(hash_preimage(tx));
    "0x"@ + hex_encoded(transaction_envelope(tx, hash, signature_bytes(secret, hash)))
}

/// The strings of the transaction that the signer does not replace fit in
/// a Tars string.
pub open spec fn signable(tx: Transaction, chain_id: String, group_id: String) -> bool {
    &&& utf8(chain_id).len() <= TARS_MAX_STRING_LENGTH
    &&& utf8(group_id).len() <= TARS_MAX_STRING_LENGTH
    &&& utf8(tx.to).len() <= TARS_MAX_STRING_LENGTH
    &&& utf8(tx.abi).len() <= TARS_MAX_STRING_LENGTH
}

pub proof fn lemma_hex_encoded_ascii(b: Seq<u8>)
    ensures
        is_ascii_chars(hex_encoded(b)),
        hex_encoded(b).len() == 2 * b.len(),
{
    assert forall|i: int| 0 <= i < hex_encoded(b).len() implies '\0' <= #[trigger] hex_encoded(
        b,
    )[i] <= '\u{7f}' by {
        let n = if i % 2 == 0 {
            b[i / 2] as int / 16
        } else {
            b[i / 2] as int % 16
        };
        assert(0 <= n < 16);
        assert(hex_encoded(b)[i] == hex_char(n));
    }
}

/// A nonce is 68 bytes of UTF-8.
pub proof fn lemma_nonce_len(bytes: Seq<u8>)
    requires
        bytes.len() == 32,
    ensures
        encode_utf8(nonce_text(bytes)).len() == 68,
{
    reveal_strlit("CERX");
    lemma_hex_encoded_ascii(bytes);
    assert(is_ascii_chars("CERX"@));
    vstd::utf8::is_ascii_chars_concat(nonce_text(bytes), "CERX"@, hex_encoded(bytes));
    vstd::utf8::is_ascii_chars_encode_utf8(nonce_text(bytes));
}

/// Whether a signer for `chain_id` and `group_id` can encode `tx`: the
/// strings it keeps fit in a Tars string.
pub fn can_sign(chain_id: &String, group_id: &String, tx: &Transaction) -> (ok: bool)
    ensures
        ok == signable(*tx, *chain_id, *group_id),
{
    chain_id.as_str().as_bytes().len() <= TARS_MAX_STRING_LENGTH && group_id.as_str().as_bytes().len()
        <= TARS_MAX_STRING_LENGTH && tx.to.as_str().as_bytes().len() <= TARS_MAX_STRING_LENGTH
        && tx.abi.as_str().as_bytes().len() <= TARS_MAX_STRING_LENGTH
}

/// The Tars envelope of a signed transaction, as `0x` and hex.
pub fn encode_tx_data(tx: Transaction, hash_value: [u8; 32], signature_data: Vec<u8>) -> (s:
    String)
    requires
        fits_tars(tx),
    ensures
        s@ == "0x"@ + hex_encoded(transaction_envelope(tx, hash_value@, signature_data@)),
{
    let mut os = TarsOutputStream::new();
    os.write_to_head(TarsType::StructBegin, 1);
    tx.write_to(&mut os);
    os.write_to_head(TarsType::StructEnd, 0);
    os.write_bytes(hash_value.as_slice(), 2);
    os.write_bytes(signature_data.as_slice(), 3);
    assert(os.buf@ =~= transaction_envelope(tx, hash_value@, signature_data@));
    hex_encode_with_prefix(os.buf.as_slice())
}

/// The 65 signature bytes of a transaction: the compact signature followed
/// by the recovery id as a byte.
pub fn recoverable_signature_bytes(compact: &[u8; 64], recovery_id: i32) -> (v: Vec<u8>)
    ensures
        v@ == compact@.push(recovery_id as u8),
{
    let mut signature_data: Vec<u8> = Vec::with_capacity(65);
    append_bytes(&mut signature_data, compact.as_slice());
    signature_data.push(recovery_id as u8);
    signature_data
}

/// Signs `tx` for the chain `chain_id` and group `group_id` with the given
/// nonce, and gives the text of the signed transaction.
pub fn sign_with_nonce(
    chain_id: &String,
    group_id: &String,
    private_key: &str,
    tx: Transaction,
    nonce: String,
) -> (s: String)
    requires
        is_private_key_text(private_key.spec_bytes()),
        signable(tx, *chain_id, *group_id),
        utf8(nonce).len() <= TARS_MAX_STRING_LENGTH,
    ensures
        s@ == signed_transaction_text(
            prepared_transaction(tx, nonce, *chain_id, *group_id),
            private_key_bytes(private_key.spec_bytes()),
        ),
{
    let private_key = make_private_key(private_key);
    let ghost unsigned = tx;
    let mut tx = tx;
    tx.nonce = nonce;
    tx.chain_id = chain_id.clone();
    tx.group_id = group_id.clone();
    assert(tx == prepared_transaction(unsigned, nonce, *chain_id, *group_id));
    let hash_value = tx.calc_tx_hash();
    let (compact_signature, recovery_id) = sign_recoverable(&private_key.bytes, &hash_value);
    let signature_data = recoverable_signature_bytes(&compact_signature, recovery_id);
    assert(signature_data@ =~= signature_bytes(private_key.bytes@, hash_value@));
    encode_tx_data(tx, hash_value, signature_data)
}

/// The outcome of a JSON-RPC reply: its result, or an error carrying the
/// message of the error the node reported. A reply with neither is not
/// accepted.
pub fn rpc_outcome<T>(reply: InvokeResult<T>) -> (r: Result<T, BcosError>)
    requires
        reply.result is Some || reply.error is Some,
    ensures
        reply.result matches Some(v) ==> r == Ok::<T, BcosError>(v),
        reply.result is None ==> (r matches Err(e) && e.message@ == reply.error->0.message@),
{
    match reply.result {
        Some(v) => Ok(v),
        None => {
            let error: InvokeError = reply.error.unwrap();
            Err(BcosError::error(error.message))
        },
    }
}

/// The block limit of a transaction sent at the given block height: 500
/// blocks ahead. Heights whose limit overflows are not accepted.
pub fn block_limit_for(block_number: u64) -> (limit: i64)
    requires
        block_number as i64 + 500 <= i64::MAX,
    ensures
        limit == block_number as i64 + 500,
{
    block_number as i64 + 500
}

/// The bytes of a hex call output `0x...`: the hex after its first two
/// bytes, decoded; none when that is not hex. An output shorter than two
/// bytes is not accepted.
pub fn decode_call_output(output: &str) -> (r: Option<Vec<u8>>)
    requires
        output.spec_bytes().len() >= 2,
    ensures
        r is Some <==> is_hex_text(output.spec_bytes().skip(2)),
        r matches Some(v) ==> v@ == hex_decoded(output.spec_bytes().skip(2)),
{
    let b = output.as_bytes();
    let rest = &b[2..b.len()];
    assert(rest@ =~= output.spec_bytes().skip(2));
    hex_decode(rest)
}

/// One step of reading a reply body.
#[derive(Debug)]
pub enum BodyChunk {
    /// A chunk of the body arrived.
    Data(Vec<u8>),
    /// Reading the next chunk failed.
    Failed,
    /// The body ended.
    End,
}

/// Folds one step of reading a reply body into the bytes read so far: a
/// chunk is appended and reading goes on; a failure or the end stops it
/// with the bytes unchanged.
pub fn collect_body_chunk(all_data: &mut Vec<u8>, chunk: BodyChunk) -> (more: bool)
    ensures
        match chunk {
            BodyChunk::Data(d) => more && final(all_data)@ == old(all_data)@ + d@,
            _ => !more && final(all_data)@ == old(all_data)@,
        },
{
    match chunk {
        BodyChunk::Data(data) => {
            append_bytes(all_data, data.as_slice());
            true
        },
        _ => false,
    }
}

impl BcosApi {
    /// A client of the node at `node_url` with the given TLS material; the
    /// group, chain and node default to `group0`, `chain0` and `node0`.
    pub fn new(
        group_id: Option<&str>,
        chain_id: Option<&str>,
        node_id: Option<&str>,
        node_url: &str,
        certs: Vec<Vec<u8>>,
        key: Vec<u8>,
        root_certs: Vec<Vec<u8>>,
    ) -> (api: Self)
        ensures
            api.group_id@ == (match group_id {
                Some(g) => g@,
                None => "group0"@,
            }),
            api.chain_id@ == (match chain_id {
                Some(c) => c@,
                None => "chain0"@,
            }),
            api.node_id@ == (match node_id {
                Some(n) => n@,
                None => "node0"@,
            }),
            api.node_url@ == node_url@,
            api.certs == certs,
            api.key == key,
            api.root_certs == root_certs,
    {
        let group_id = match group_id {
            Some(g) => g,
            None => "group0",
        };
        let chain_id = match chain_id {
            Some(c) => c,
            None => "chain0",
        };
        let node_id = match node_id {
            Some(n) => n,
            None => "node0",
        };
        BcosApi {
            certs,
            key,
            root_certs,
            group_id: group_id.to_owned(),
            chain_id: chain_id.to_owned(),
            node_id: node_id.to_owned(),
            node_url: node_url.to_owned(),
        }
    }

    /// The nonce made of 32 given bytes (see `nonce_text`).
    pub fn nonce_from_bytes(bytes: &[u8; 32]) -> (n: String)
        ensures
            n@ == nonce_text(bytes@),
    {
        let mut n = String::from_str("CERX");
        let hex = hex_encode(bytes.as_slice());
        n.append(hex.as_str());
        n
    }

    /// A fresh nonce from 32 random bytes.
    pub fn gen_nonce() -> (n: String)
        ensures
            exists|b: Seq<u8>| b.len() == 32 && n@ == nonce_text(b),
    {
        let random_bytes = random_bytes_32();
        Self::nonce_from_bytes(&random_bytes)
    }

    /// Signs `tx` for this client's chain and group with a fresh nonce, and
    /// gives the text of the signed transaction.
    pub fn sign_data(&self, private_key: &str, tx: Transaction) -> (r: Result<String, BcosError>)
        requires
            is_private_key_text(private_key.spec_bytes()),
            signable(tx, self.chain_id, self.group_id),
        ensures
            r matches Ok(s) && exists|nonce: String|
                #![trigger prepared_transaction(tx, nonce, self.chain_id, self.group_id)]
                (exists|b: Seq<u8>| b.len() == 32 && nonce@ == nonce_text(b)) && s@
                    == signed_transaction_text(
                    prepared_transaction(tx, nonce, self.chain_id, self.group_id),
                    private_key_bytes(private_key.spec_bytes()),
                ),
    {
        let nonce = Self::gen_nonce();
        proof {
            let b = choose|b: Seq<u8>| b.len() == 32 && nonce@ == nonce_text(b);
            lemma_nonce_len(b);
        }
        let s = sign_with_nonce(&self.chain_id, &self.group_id, private_key, tx, nonce);
        Ok(s)
    }

    /// The `call` request of a read-only call of `to` with call data `data`.
    pub fn call_request(&self, to: &str, data: String) -> (p: InvokeParam<Vec<RpcValue>>)
        ensures
            p.jsonrpc@ == "2.0"@,
            p.id == 1,
            p.method@ == "call"@,
            p.params@.len() == 4,
            p.params@[0] == RpcValue::Str(self.group_id),
            p.params@[1] == RpcValue::Str(self.node_id),
            p.params@[2] matches RpcValue::Str(s) && s@ == to@,
            p.params@[3] == RpcValue::Str(data),
    {
        let param: Vec<RpcValue> = vec![
            RpcValue::Str(self.group_id.clone()),
            RpcValue::Str(self.node_id.clone()),
            RpcValue::Str(to.to_owned()),
            RpcValue::Str(data),
        ];
        InvokeParam::new(String::from_str("call"), param)
    }

    /// The `getBlockNumber` request: no parameters.
    pub fn block_number_request() -> (p: InvokeParam<Vec<String>>)
        ensures
            p.jsonrpc@ == "2.0"@,
            p.id == 1,
            p.method@ == "getBlockNumber"@,
            p.params@.len() == 0,
    {
        let param: Vec<String> = Vec::new();
        InvokeParam::new(String::from_str("getBlockNumber"), param)
    }

    /// The `getBlockByNumber` request for the block at `block_number`,
    /// without transactions.
    pub fn block_by_number_request(&self, block_number: u64) -> (p: InvokeParam<Vec<RpcValue>>)
        ensures
            p.jsonrpc@ == "2.0"@,
            p.id == 1,
            p.method@ == "getBlockByNumber"@,
            p.params@ == seq![
                RpcValue::Str(self.group_id),
                RpcValue::Str(self.node_id),
                RpcValue::Number(block_number),
                RpcValue::Bool(false),
                RpcValue::Bool(false),
            ],
    {
        let param: Vec<RpcValue> = vec![
            RpcValue::Str(self.group_id.clone()),
            RpcValue::Str(self.node_id.clone()),
            RpcValue::Number(block_number),
            RpcValue::Bool(false),
            RpcValue::Bool(false),
        ];
        InvokeParam::new(String::from_str("getBlockByNumber"), param)
    }

    /// The `getTransactionReceipt` request for `tx_hash`, with its proof.
    pub fn transaction_receipt_request(&self, tx_hash: &str) -> (p: InvokeParam<Vec<RpcValue>>)
        ensures
            p.jsonrpc@ == "2.0"@,
            p.id == 1,
            p.method@ == "getTransactionReceipt"@,
            p.params@.len() == 4,
            p.params@[0] == RpcValue::Str(self.group_id),
            p.params@[1] == RpcValue::Str(self.node_id),
            p.params@[2] matches RpcValue::Str(s) && s@ == tx_hash@,
            p.params@[3] == RpcValue::Bool(true),
    {
        let param: Vec<RpcValue> = vec![
            RpcValue::Str(self.group_id.clone()),
            RpcValue::Str(self.node_id.clone()),
            RpcValue::Str(tx_hash.to_owned()),
            RpcValue::Bool(true),
        ];
        InvokeParam::new(String::from_str("getTransactionReceipt"), param)
    }

    /// The `getPeers` request of this client's group.
    pub fn peers_request(&self) -> (p: InvokeParam<Vec<String>>)
        ensures
            p.jsonrpc@ == "2.0"@,
            p.id == 1,
            p.method@ == "getPeers"@,
            p.params@ == seq![self.group_id],
    {
        let param: Vec<String> = vec![self.group_id.clone()];
        InvokeParam::new(String::from_str("getPeers"), param)
    }

    /// The `getPbftView` request of this client's group and node.
    pub fn pbft_view_request(&self) -> (p: InvokeParam<Vec<String>>)
        ensures
            p.jsonrpc@ == "2.0"@,
            p.id == 1,
            p.method@ == "getPbftView"@,
            p.params@ == seq![self.group_id, self.node_id],
    {
        let param: Vec<String> = vec![self.group_id.clone(), self.node_id.clone()];
        InvokeParam::new(String::from_str("getPbftView"), param)
    }

    /// The `sendTransaction` request of a signed transaction text, with the
    /// receipt's proof asked for.
    pub fn send_transaction_request(&self, sign_data: String) -> (p: InvokeParam<Vec<RpcValue>>)
        ensures
            p.jsonrpc@ == "2.0"@,
            p.id == 1,
            p.method@ == "sendTransaction"@,
            p.params@ == seq![
                RpcValue::Str(self.group_id),
                RpcValue::Str(self.node_id),
                RpcValue::Str(sign_data),
                RpcValue::Bool(true),
            ],
    {
        let param: Vec<RpcValue> = vec![
            RpcValue::Str(self.group_id.clone()),
            RpcValue::Str(self.node_id.clone()),
            RpcValue::Str(sign_data),
            RpcValue::Bool(true),
        ];
        InvokeParam::new(String::from_str("sendTransaction"), param)
    }
}

} // verus!
