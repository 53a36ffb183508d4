use vstd::prelude::*;

use ethabi::ethereum_types::{H160, U256 as EthU256};
use ethabi::Token as EthToken;
use vstd::string::StringSliceAdditionalSpecFns;

use crate::bcos_api::decode_call_output;
use crate::entity::Transaction;
use crate::event_log::{to_ethabi_param_type, token_from_ethabi, ParamKind};
use crate::hexcodec::{hex_decoded, hex_encode, hex_encoded, is_hex_text};
use crate::utils::AbiToken;

verus! {

/// A parameter of a contract function.
#[derive(Debug)]
pub struct AbiParam {
    pub name: String,
    pub kind: ParamKind,
    pub internal_type: Option<String>,
}

/// The ABI description of a contract function: its name, inputs and
/// outputs.
#[derive(Debug)]
pub struct AbiFunction {
    pub name: String,
    pub inputs: Vec<AbiParam>,
    pub outputs: Vec<AbiParam>,
}

/// The call data that ethabi encodes for calling `func` with `tokens`: the
/// short signature and the encoded arguments; none when the tokens do not
/// match the inputs.
pub uninterp spec fn ethabi_call_input(func: AbiFunction, tokens: Seq<AbiToken>) -> Option<Seq<u8>>;

/// The values that ethabi decodes from `data` as the outputs of `func`;
/// none when it reports an error.
pub uninterp spec fn ethabi_call_output(func: AbiFunction, data: Seq<u8>) -> Option<Seq<AbiToken>>;

/// Converts values to ethabi's, one for one.
#[verifier::external_body]
fn to_ethabi_tokens(v: &[AbiToken]) -> Vec<EthToken> {
    v.iter().map(to_ethabi_token).collect()
}

/// Converts a value to ethabi's, variant for variant.
#[verifier::external_body]
fn to_ethabi_token(t: &AbiToken) -> EthToken {
    match t {
        AbiToken::Address(a) => EthToken::Address(H160(*a)),
        AbiToken::FixedBytes(b) => EthToken::FixedBytes(b.clone()),
        AbiToken::Bytes(b) => EthToken::Bytes(b.clone()),
        AbiToken::Int(n) => EthToken::Int(EthU256(n.0)),
        AbiToken::Uint(n) => EthToken::Uint(EthU256(n.0)),
        AbiToken::Bool(b) => EthToken::Bool(*b),
        AbiToken::Str(s) => EthToken::String(s.clone()),
        AbiToken::FixedArray(v) => EthToken::FixedArray(to_ethabi_tokens(v)),
        AbiToken::Array(v) => EthToken::Array(to_ethabi_tokens(v)),
        AbiToken::Tuple(v) => EthToken::Tuple(to_ethabi_tokens(v)),
    }
}

/// ethabi's function description.
#[verifier::external_type_specification]
#[verifier::external_body]
pub struct ExFunction(ethabi::Function);

/// Converts a function description to ethabi's, field for field; the
/// state mutability, which neither encoding nor decoding reads, is left at
/// ethabi's default.
#[verifier::external_body]
#[allow(deprecated)]
fn to_ethabi_function(func: &AbiFunction) -> ethabi::Function {
    let param = |p: &AbiParam| ethabi::Param { name: p.name.clone(), kind: to_ethabi_param_type(&p.kind), internal_type: p.internal_type.clone() };
    let abi_function = ethabi::Function {
        name: func.name.clone(),
        inputs: func.inputs.iter().map(param).collect(),
        outputs: func.outputs.iter().map(param).collect(),
        constant: None,
        state_mutability: ethabi::StateMutability::NonPayable,
    };
    abi_function
}

/// Encodes a call of `func` with `params` with `ethabi::Function::
/// encode_input`. Claimed of it: the outcome is a function of the function's
/// description and the values alone.
#[verifier::external_body]
fn function_encode_input(func: &AbiFunction, params: &[AbiToken]) -> (res: Option<Vec<u8>>)
    ensures
        res is None <==> ethabi_call_input(*func, params@) is None,
        res matches Some(v) ==> ethabi_call_input(*func, params@) == Some(v@),
{
    to_ethabi_function(func).encode_input(&to_ethabi_tokens(params)).ok()
}

/// Decodes `data` as the outputs of `func` with `ethabi::Function::
/// decode_output`. Claimed of it: the outcome is a function of the
/// function's description and the bytes alone.
#[verifier::external_body]
fn function_decode_output(func: &AbiFunction, data: &[u8]) -> (res: Option<Vec<AbiToken>>)
    ensures
        res is None <==> ethabi_call_output(*func, data@) is None,
        res matches Some(v) ==> ethabi_call_output(*func, data@) == Some(v@),
{
    match to_ethabi_function(func).decode_output(data) {
        Ok(tokens) => Some(tokens.into_iter().map(token_from_ethabi).collect()),
        Err(_) => None,
    }
}

/// The call data, as lowercase hex without a prefix, of calling `func` with
/// `params`; none when the values do not match the inputs.
pub fn invoke_call_data(func: &AbiFunction, params: &[AbiToken]) -> (r: Option<String>)
    ensures
        r is None <==> ethabi_call_input(*func, params@) is None,
        r matches Some(s) ==> s@ == hex_encoded(ethabi_call_input(*func, params@)->0),
{
    match function_encode_input(func, params) {
        Some(data) => Some(hex_encode(data.as_slice())),
        None => None,
    }
}

/// The values a read-only call of `func` gave, from its output text `0x...`:
/// the hex after the first two bytes decoded as the function's outputs;
/// none when that is not hex or does not decode. An output shorter than two
/// bytes is not accepted.
pub fn decode_invoke_output(func: &AbiFunction, output: &str) -> (r: Option<Vec<AbiToken>>)
    requires
        output.spec_bytes().len() >= 2,
    ensures
        !is_hex_text(output.spec_bytes().skip(2)) ==> r is None,
        is_hex_text(output.spec_bytes().skip(2)) ==> (r is None <==> ethabi_call_output(
            *func,
            hex_decoded(output.spec_bytes().skip(2)),
        ) is None),
        r matches Some(v) ==> ethabi_call_output(*func, hex_decoded(output.spec_bytes().skip(2)))
            == Some(v@),
{
    match decode_call_output(output) {
        Some(data) => function_decode_output(func, data.as_slice()),
        None => None,
    }
}

/// The transaction that calls `func` with `params` on the contract at
/// `contract_addr`: the default transaction with the encoded call as its
/// data and the contract as its recipient; none when the values do not
/// match the inputs.
pub fn invoke_transaction(contract_addr: &str, func: &AbiFunction, params: &[AbiToken]) -> (r: Option<
    Transaction,
>)
    ensures
        r is None <==> ethabi_call_input(*func, params@) is None,
        r matches Some(tx) ==> {
            &&& tx.data matches Some(d) && Some(d@) == ethabi_call_input(*func, params@)
            &&& tx.to@ == contract_addr@
            &&& tx.version == 0
            &&& tx.chain_id@ == "chain0"@
            &&& tx.group_id@ == "group0"@
            &&& tx.block_limit == 0
            &&& tx.nonce@ == "0"@
            &&& tx.abi@.len() == 0
            &&& tx.import_time == 0
            &&& tx.hash@.len() == 0
            &&& tx.input@.len() == 0
            &&& tx.signature@.len() == 0
        },
{
    match function_encode_input(func, params) {
        Some(data) => {
            let mut tx = Transaction::default();
            tx.data = Some(data);
            tx.to = contract_addr.to_owned();
            Some(tx)
        },
        None => None,
    }
}

} // verus!
