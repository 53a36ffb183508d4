//! Client-side building blocks for FISCO BCOS chains: Tars encoding of
//! transactions, transaction hashing and signing, ENS-style name hashing,
//! hex and address helpers, and the request/response decisions of the
//! JSON-RPC client.

pub mod bytes;
pub mod crypto;
pub mod ens;
pub mod entity;
pub mod error;
pub mod event_log;
pub mod hexcodec;
pub mod tars_serial;
pub mod utils;

pub use ens::{labelhash, namehash, string_to_byte32};
pub use error::BcosError;
pub use event_log::{build_raw_log, parse_event, RawLog};

use vstd::prelude::*;
use vstd::string::{StringExecFns, StringSliceAdditionalSpecFns};
use vstd::utf8::{decode_utf8, encode_utf8, valid_utf8};

use crate::bytes::{be_value, string_from_utf8};
use crate::crypto::{keccak256, keccak256_digest};
use crate::hexcodec::{
    h160_digits, h160_error_text, h160_from_str, hex_decode, hex_decoded, hex_encoded, is_h160_text, is_hex_text,
    lemma_hex_text_roundtrip, strip_hex_prefix,
};
use crate::tars_serial::append_bytes;

verus! {

/// The 20 bytes of the address text `address` (see `is_h160_text`); the
/// parser's error text otherwise.
pub fn hex_addr_to_h160(address: &str) -> (r: Result<[u8; 20], BcosError>)
    ensures
        r is Ok <==> is_h160_text(address.spec_bytes()),
        r matches Ok(b) ==> b@ == hex_decoded(h160_digits(address.spec_bytes())),
        r matches Err(e) ==> e.message@ == h160_error_text(address@),
{
    match h160_from_str(address) {
        Ok(h16) => Ok(h16),
        Err(err) => Err(BcosError::error(err)),
    }
}

/// The permission id of an API: the Keccak-256 digest of the owner's 20
/// address bytes followed by the UTF-8 bytes of the node URL, the DXC name
/// and the API name. An owner text that is not an address gives the
/// address parser's error text.
pub fn permission_id(owner_addr: &str, node_url: &str, dxc_name: &str, api: &str) -> (r: Result<
    Vec<u8>,
    BcosError,
>)
    ensures
        r is Ok <==> is_h160_text(owner_addr.spec_bytes()),
        r matches Ok(v) ==> v@ == keccak256_digest(
            hex_decoded(h160_digits(owner_addr.spec_bytes())) + node_url.spec_bytes()
                + dxc_name.spec_bytes() + api.spec_bytes(),
        ),
        r matches Ok(v) ==> v@.len() == 32,
        r matches Err(e) ==> e.message@ == h160_error_text(owner_addr@),
{
    let owner = hex_addr_to_h160(owner_addr)?;
    let mut input: Vec<u8> = Vec::new();
    append_bytes(&mut input, owner.as_slice());
    append_bytes(&mut input, node_url.as_bytes());
    append_bytes(&mut input, dxc_name.as_bytes());
    append_bytes(&mut input, api.as_bytes());
    let ret = keccak256(input.as_slice());
    let mut out: Vec<u8> = Vec::new();
    append_bytes(&mut out, ret.as_slice());
    Ok(out)
}

/// The bytes of a permission id written in hex, with or without a
/// lowercase `0x`.
pub fn decode_permission_id(permission_id: &str) -> (r: Result<Vec<u8>, BcosError>)
    ensures
        is_hex_text(strip_hex_prefix(permission_id.spec_bytes())) ==> (r matches Ok(v) && v@
            == hex_decoded(strip_hex_prefix(permission_id.spec_bytes()))),
        !is_hex_text(strip_hex_prefix(permission_id.spec_bytes())) ==> (r matches Err(e)
            && e.message@ == "permission_id 格式不正确"@),
{
    let b = permission_id.as_bytes();
    let text = if b.len() >= 2 && b[0] == 48u8 && b[1] == 120u8 {
        &b[2..b.len()]
    } else {
        b
    };
    match hex_decode(text) {
        Some(v) => Ok(v),
        None => Err(BcosError::from_text("permission_id 格式不正确")),
    }
}

/// The ASCII bytes of `0x08c379a0`, the hex selector of `Error(string)`.
pub open spec fn revert_selector() -> Seq<u8> {
    seq![48u8, 120u8, 48u8, 56u8, 99u8, 51u8, 55u8, 57u8, 97u8, 48u8]
}

/// The text `b` begins with the `Error(string)` selector.
pub open spec fn has_revert_selector(b: Seq<u8>) -> bool {
    b.len() >= 10 && b.take(10) == revert_selector()
}

/// The bytes that the hex after the selector spells.
pub open spec fn revert_data(b: Seq<u8>) -> Seq<u8> {
    hex_decoded(b.skip(10))
}

/// The length of the reason, read from bytes 60..64 of the data, big endian.
pub open spec fn revert_reason_len(data: Seq<u8>) -> int {
    be_value(data.subrange(60, 64)) as int
}

/// The bytes of the reason: those after the 64-byte offset and length words.
pub open spec fn revert_reason_bytes(data: Seq<u8>) -> Seq<u8> {
    data.subrange(64, 64 + revert_reason_len(data))
}

/// The reason's length stays within the data wherever it is read.
pub open spec fn revert_reason_in_bounds(b: Seq<u8>) -> bool {
    (has_revert_selector(b) && is_hex_text(b.skip(10)) && revert_data(b).len() >= 64) ==> 64
        + revert_reason_len(revert_data(b)) <= revert_data(b).len()
}

/// The reason string of a revert output `0x08c379a0...`: the UTF-8 string
/// whose length stands in bytes 60..64 of the hex-decoded data and whose
/// bytes follow from byte 64. An output without the selector, with bad hex,
/// shorter than 64 bytes or whose reason is not UTF-8 gives an error. An
/// output whose reason runs past its end is not accepted.
pub fn decode_revert_reason(output: &str) -> (r: Result<String, BcosError>)
    requires
        revert_reason_in_bounds(output.spec_bytes()),
    ensures
        !has_revert_selector(output.spec_bytes()) ==> (r matches Err(e) && e.message@
            == "解析出错：不是 revert/require 信息"@),
        has_revert_selector(output.spec_bytes()) ==> ({
            let b = output.spec_bytes();
            let data = revert_data(b);
            if is_hex_text(b.skip(10)) && data.len() >= 64 && valid_utf8(
                revert_reason_bytes(data),
            ) {
                r matches Ok(s) && s@ == decode_utf8(revert_reason_bytes(data))
            } else {
                r matches Err(e) && e.message@ == "解析错误信息失败：格式错误！"@
            }
        }),
{
    let b = output.as_bytes();
    let selector: [u8; 10] = [48u8, 120u8, 48u8, 56u8, 99u8, 51u8, 55u8, 57u8, 97u8, 48u8];
    if b.len() < 10 {
        return Err(BcosError::from_text("解析出错：不是 revert/require 信息"));
    }
    let mut i: usize = 0;
    while i < 10
        invariant
            i <= 10,
            b@.len() >= 10,
            b@ == output.spec_bytes(),
            selector@ == revert_selector(),
            forall|k: int| 0 <= k < i ==> b@[k] == selector@[k],
        decreases 10 - i,
    {
        if b[i] != selector[i] {
            assert(b@.take(10)[i as int] != revert_selector()[i as int]);
            return Err(BcosError::from_text("解析出错：不是 revert/require 信息"));
        }
        i = i + 1;
    }
    assert(b@.take(10) =~= revert_selector());
    let data = match hex_decode(&b[10..b.len()]) {
        Some(data) => data,
        None => {
            return Err(BcosError::from_text("解析错误信息失败：格式错误！"));
        },
    };
    assert(b@.subrange(10, b@.len() as int) =~= b@.skip(10));
    if data.len() < 64 {
        return Err(BcosError::from_text("解析错误信息失败：格式错误！"));
    }
    let str_len: usize = (data[60] as usize) * 16777216 + (data[61] as usize) * 65536 + (data[62]
        as usize) * 256 + (data[63] as usize);
    proof {
        let w = data@.subrange(60, 64);
        reveal_with_fuel(be_value, 5);
        assert(w.drop_last().drop_last().drop_last().drop_last() =~= Seq::<u8>::empty());
        assert(w.drop_last().drop_last().drop_last() =~= seq![data@[60]]);
        assert(w.drop_last().drop_last() =~= seq![data@[60], data@[61]]);
        assert(w.drop_last() =~= seq![data@[60], data@[61], data@[62]]);
        assert(str_len == revert_reason_len(data@));
    }
    let str_bytes = &data.as_slice()[64..64 + str_len];
    let mut owned: Vec<u8> = Vec::new();
    append_bytes(&mut owned, str_bytes);
    match string_from_utf8(owned) {
        Some(ret) => Ok(ret),
        None => Err(BcosError::from_text("解析错误信息失败：格式错误！")),
    }
}

/// Reading back a revert output: the text made of the `Error(string)`
/// selector and the hex of ABI data whose reason lies within it is read as
/// a revert, is accepted as it stands, and yields the data it was made of,
/// so `decode_revert_reason` gives the reason held at bytes 64 onward.
pub proof fn law_revert_reason_of_encoded_output(data: Seq<u8>)
    requires
        data.len() >= 64,
        64 + revert_reason_len(data) <= data.len(),
    ensures
        has_revert_selector(revert_selector() + encode_utf8(hex_encoded(data))),
        is_hex_text((revert_selector() + encode_utf8(hex_encoded(data))).skip(10)),
        revert_data(revert_selector() + encode_utf8(hex_encoded(data))) == data,
        revert_reason_in_bounds(revert_selector() + encode_utf8(hex_encoded(data))),
{
    lemma_hex_text_roundtrip(data);
    let b = revert_selector() + encode_utf8(hex_encoded(data));
    assert(b.take(10) =~= revert_selector());
    assert(b.skip(10) =~= encode_utf8(hex_encoded(data)));
}

/// The description of a transaction status code.
pub open spec fn status_text(status: i32) -> Seq<char> {
    match status {
        0 => "成功"@,
        1 => "未知错误"@,
        10 => "错误的构造（BadInstruction）"@,
        11 => "跳转目标错误（BadJumpDestination）"@,
        12 => "Gas 不足（OutOfGas）"@,
        13 => "超出栈限制（OutOfStack）"@,
        14 => "栈下溢（StackUnderflow）"@,
        15 => "预编译合约执行失败（PrecompiledError）"@,
        16 => "交易回滚（RevertInstruction）"@,
        17 => "合约地址已存在（ContractAddressAlreadyUsed）"@,
        18 => "权限不足（PermissionDenied）"@,
        19 => "调用地址错误（CallAddressError）"@,
        21 => "合约已冻结（ContractFrozen）"@,
        22 => "账户已冻结（AccountFrozen）"@,
        23 => "账户已作废（AccountAbolished）"@,
        24 => "合约已废止（ContractAbolished）"@,
        32 => "WASM 二进制校验失败（WASMValidationFailure）"@,
        33 => "WASM 参数数量超限（WASMArgumentOutOfRange）"@,
        34 => "WASM 出现 unreachable 指令（WASMUnreachableInstruction）"@,
        35 => "WASM 执行失败（WASMTrap）"@,
        _ => "未知错误码"@,
    }
}

/// The description of a transaction status code; `未知错误码` for a code
/// that has none.
pub fn status_message(status: i32) -> (m: String)
    ensures
        m@ == status_text(status),
{
    let msg = match status {
        0 => "成功",
        1 => "未知错误",
        10 => "错误的构造（BadInstruction）",
        11 => "跳转目标错误（BadJumpDestination）",
        12 => "Gas 不足（OutOfGas）",
        13 => "超出栈限制（OutOfStack）",
        14 => "栈下溢（StackUnderflow）",
        15 => "预编译合约执行失败（PrecompiledError）",
        16 => "交易回滚（RevertInstruction）",
        17 => "合约地址已存在（ContractAddressAlreadyUsed）",
        18 => "权限不足（PermissionDenied）",
        19 => "调用地址错误（CallAddressError）",
        21 => "合约已冻结（ContractFrozen）",
        22 => "账户已冻结（AccountFrozen）",
        23 => "账户已作废（AccountAbolished）",
        24 => "合约已废止（ContractAbolished）",
        32 => "WASM 二进制校验失败（WASMValidationFailure）",
        33 => "WASM 参数数量超限（WASMArgumentOutOfRange）",
        34 => "WASM 出现 unreachable 指令（WASMUnreachableInstruction）",
        35 => "WASM 执行失败（WASMTrap）",
        _ => "未知错误码",
    };
    String::from_str(msg)
}

/// Each listed status code has its own FISCO BCOS description, and every
/// other code is reported as unknown.
pub proof fn law_status_texts(status: i32)
    ensures
        status_text(0) == "成功"@,
        status_text(1) == "未知错误"@,
        status_text(10) == "错误的构造（BadInstruction）"@,
        status_text(11) == "跳转目标错误（BadJumpDestination）"@,
        status_text(12) == "Gas 不足（OutOfGas）"@,
        status_text(13) == "超出栈限制（OutOfStack）"@,
        status_text(14) == "栈下溢（StackUnderflow）"@,
        status_text(15) == "预编译合约执行失败（PrecompiledError）"@,
        status_text(16) == "交易回滚（RevertInstruction）"@,
        status_text(17) == "合约地址已存在（ContractAddressAlreadyUsed）"@,
        status_text(18) == "权限不足（PermissionDenied）"@,
        status_text(19) == "调用地址错误（CallAddressError）"@,
        status_text(21) == "合约已冻结（ContractFrozen）"@,
        status_text(22) == "账户已冻结（AccountFrozen）"@,
        status_text(23) == "账户已作废（AccountAbolished）"@,
        status_text(24) == "合约已废止（ContractAbolished）"@,
        status_text(32) == "WASM 二进制校验失败（WASMValidationFailure）"@,
        status_text(33) == "WASM 参数数量超限（WASMArgumentOutOfRange）"@,
        status_text(34) == "WASM 出现 unreachable 指令（WASMUnreachableInstruction）"@,
        status_text(35) == "WASM 执行失败（WASMTrap）"@,
        !(0 <= status <= 1 || 10 <= status <= 19 || 21 <= status <= 24 || 32 <= status <= 35)
            ==> status_text(status) == "未知错误码"@,
{
}

} // verus!
pub mod bcos_api;
pub mod bcos_client_api;
pub mod pem;
pub mod contract;
