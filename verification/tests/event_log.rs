use bcos_sdk::entity::LogEntry;
use bcos_sdk::event_log::{record_parsed_event, AbiEvent, AbiEventParam, LogParam, ParamKind};
use bcos_sdk::utils::{AbiToken, U256};
use bcos_sdk::{build_raw_log, parse_event, RawLog};

fn entry(topics: &[&str], data: &str) -> LogEntry {
    LogEntry {
        address: "0x00".to_string(),
        data: data.to_string(),
        topics: topics.iter().map(|t| t.to_string()).collect(),
    }
}

#[test]
fn raw_log_keeps_32_byte_topics() {
    let t1 = format!("0x{}", "11".repeat(32));
    let t2 = format!("0x{}", "22".repeat(31));
    let t3 = "0xzz".to_string();
    let log = build_raw_log(&entry(&[&t1, &t2, &t3], "0x0a0b"));
    assert_eq!(log.topics, vec![[0x11u8; 32]]);
    assert_eq!(log.data, vec![0x0a, 0x0b]);
}

#[test]
fn raw_log_data_empty_or_bad() {
    assert!(build_raw_log(&entry(&[], "")).data.is_empty());
    assert!(build_raw_log(&entry(&[], "0xq")).data.is_empty());
}

fn transfer_event() -> AbiEvent {
    AbiEvent {
        name: "Transfer".to_string(),
        inputs: vec![
            AbiEventParam { name: "from".to_string(), kind: ParamKind::Address, indexed: true },
            AbiEventParam { name: "value".to_string(), kind: ParamKind::Uint(256), indexed: false },
        ],
        anonymous: false,
    }
}

fn transfer_signature() -> [u8; 32] {
    let event = ethabi::Event {
        name: "Transfer".to_string(),
        inputs: vec![
            ethabi::EventParam { name: "from".to_string(), kind: ethabi::ParamType::Address, indexed: true },
            ethabi::EventParam { name: "value".to_string(), kind: ethabi::ParamType::Uint(256), indexed: false },
        ],
        anonymous: false,
    };
    event.signature().0
}

#[test]
fn parse_event_appends_on_success() {
    let event = transfer_event();
    let mut from = [0u8; 32];
    from[12..].copy_from_slice(&[0x11; 20]);
    let mut data = [0u8; 32];
    data[31] = 5;
    let raw = RawLog { topics: vec![transfer_signature(), from], data: data.to_vec() };
    let mut out = vec![("earlier".to_string(), vec![])];
    parse_event(raw, &event, &mut out);
    assert_eq!(out.len(), 2);
    assert_eq!(out[0].0, "earlier");
    assert_eq!(out[1].0, "Transfer");
    assert_eq!(
        out[1].1,
        vec![
            LogParam { name: "from".to_string(), value: AbiToken::Address([0x11; 20]) },
            LogParam { name: "value".to_string(), value: AbiToken::Uint(U256([5, 0, 0, 0])) },
        ]
    );
}

#[test]
fn parse_event_leaves_result_on_failure() {
    let event = transfer_event();
    let raw = RawLog { topics: vec![[0u8; 32]], data: vec![] };
    let mut out = Vec::new();
    parse_event(raw, &event, &mut out);
    assert!(out.is_empty());
}

#[test]
fn record_parsed_event_cases() {
    let mut out = Vec::new();
    record_parsed_event("A".to_string(), None, &mut out);
    assert!(out.is_empty());
    record_parsed_event("B".to_string(), Some(vec![]), &mut out);
    assert_eq!(out.len(), 1);
    assert_eq!(out[0].0, "B");
}
