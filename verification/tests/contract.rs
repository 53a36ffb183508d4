use bcos_sdk::contract::{decode_invoke_output, invoke_call_data, invoke_transaction, AbiFunction, AbiParam};
use bcos_sdk::event_log::ParamKind;
use bcos_sdk::utils::{AbiToken, U256};

fn balance_of() -> AbiFunction {
    AbiFunction {
        name: "balanceOf".to_string(),
        inputs: vec![AbiParam { name: "owner".to_string(), kind: ParamKind::Address, internal_type: None }],
        outputs: vec![AbiParam { name: "".to_string(), kind: ParamKind::Uint(256), internal_type: None }],
    }
}

#[test]
fn call_data_is_selector_and_arguments() {
    let data = invoke_call_data(&balance_of(), &[AbiToken::Address([0x22; 20])]).unwrap();
    let mut expected = "70a08231".to_string();
    expected.push_str(&"00".repeat(12));
    expected.push_str(&"22".repeat(20));
    assert_eq!(data, expected);
}

#[test]
fn call_data_rejects_mismatched_values() {
    assert!(invoke_call_data(&balance_of(), &[AbiToken::Bool(true)]).is_none());
    assert!(invoke_transaction("0xc", &balance_of(), &[]).is_none());
}

#[test]
fn output_is_decoded() {
    let output = format!("0x{}{}", "00".repeat(31), "07");
    assert_eq!(
        decode_invoke_output(&balance_of(), &output).unwrap(),
        vec![AbiToken::Uint(U256([7, 0, 0, 0]))]
    );
    assert!(decode_invoke_output(&balance_of(), "0xzz").is_none());
    assert!(decode_invoke_output(&balance_of(), "0x00").is_none());
}

#[test]
fn invoke_transaction_carries_call() {
    let tx = invoke_transaction("0xcontract", &balance_of(), &[AbiToken::Address([0x22; 20])]).unwrap();
    assert_eq!(tx.to, "0xcontract");
    let data = tx.data.unwrap();
    assert_eq!(&data[..4], &[0x70, 0xa0, 0x82, 0x31]);
    assert_eq!(data.len(), 36);
    assert_eq!(tx.chain_id, "chain0");
    assert_eq!(tx.nonce, "0");
}
