use vstd::prelude::*;

use ethabi::ethereum_types::H256;
use ethabi::{ParamType as EthParamType, Token as EthToken};
use vstd::string::StringSliceAdditionalSpecFns;
use vstd::utf8::is_char_boundary;

use crate::entity::{utf8, LogEntry};
use crate::hexcodec::{hex_decode, hex_decoded, is_hex_text};
use crate::utils::{AbiToken, U256};

verus! {

/// A log as the ABI decoder reads it: the topic hashes and the data.
#[derive(Debug)]
pub struct RawLog {
    pub topics: Vec<[u8; 32]>,
    pub data: Vec<u8>,
}

/// The hash a topic text `0x...` spells, when the hex after its first two
/// bytes decodes to exactly 32 bytes.
pub open spec fn topic_hash(t: Seq<u8>) -> Option<Seq<u8>> {
    let d = t.skip(2);
    if is_hex_text(d) && hex_decoded(d).len() == 32 {
        Some(hex_decoded(d))
    } else {
        None
    }
}

/// The hashes of the topics that spell one, in order; the others are left
/// out.
pub open spec fn topic_hashes(topics: Seq<String>) -> Seq<Seq<u8>>
    decreases topics.len(),
{
    if topics.len() == 0 {
        Seq::empty()
    } else {
        let prev = topic_hashes(topics.drop_last());
        match topic_hash(utf8(topics.last())) {
            Some(h) => prev.push(h),
            None => prev,
        }
    }
}

/// The data bytes of a log's data text: empty for an empty text, else what
/// the hex after its first two bytes spells, or empty when that is not hex.
pub open spec fn log_data_bytes(data: Seq<u8>) -> Seq<u8> {
    if data.len() == 0 {
        Seq::empty()
    } else if is_hex_text(data.skip(2)) {
        hex_decoded(data.skip(2))
    } else {
        Seq::empty()
    }
}

/// A raw log never holds more topics than the entry, and each is a 32-byte
/// hash.
pub proof fn law_topic_hashes_bounded(topics: Seq<String>)
    ensures
        topic_hashes(topics).len() <= topics.len(),
        forall|i: int|
            0 <= i < topic_hashes(topics).len() ==> #[trigger] topic_hashes(topics)[i].len() == 32,
    decreases topics.len(),
{
    if topics.len() > 0 {
        law_topic_hashes_bounded(topics.drop_last());
    }
}

/// Appending a topic to an entry appends its hash at the end of the raw
/// log's topics when it spells one, and leaves them as they were when it
/// does not.
pub proof fn law_topic_hashes_push(topics: Seq<String>, t: String)
    ensures
        topic_hash(utf8(t)) matches Some(h) ==> topic_hashes(topics.push(t)) == topic_hashes(
            topics,
        ).push(h),
        topic_hash(utf8(t)) is None ==> topic_hashes(topics.push(t)) == topic_hashes(topics),
{
    assert(topics.push(t).drop_last() =~= topics);
}

/// The raw log keeps the entry's order: the hashes of two runs of topics
/// laid end to end are the hashes of the first run followed by those of the
/// second.
pub proof fn law_topic_hashes_concat(a: Seq<String>, b: Seq<String>)
    ensures
        topic_hashes(a + b) == topic_hashes(a) + topic_hashes(b),
    decreases b.len(),
{
    if b.len() == 0 {
        assert(a + b =~= a);
        assert(topic_hashes(a) + topic_hashes(b) =~= topic_hashes(a));
    } else {
        law_topic_hashes_concat(a, b.drop_last());
        assert((a + b).drop_last() =~= a + b.drop_last());
        assert((a + b).last() == b.last());
        let hb = topic_hashes(b.drop_last());
        match topic_hash(utf8(b.last())) {
            Some(h) => {
                assert(topic_hashes(a) + hb.push(h) =~= (topic_hashes(a) + hb).push(h));
            },
            None => {},
        }
    }
}

/// When the entry's first topic spells a hash (an event's signature), that
/// hash is the raw log's first topic.
pub proof fn law_first_topic_first(topics: Seq<String>)
    requires
        topics.len() > 0,
        topic_hash(utf8(topics[0])) is Some,
    ensures
        topic_hashes(topics).len() > 0,
        topic_hashes(topics)[0] == topic_hash(utf8(topics[0]))->0,
{
    let first = seq![topics[0]];
    law_topic_hashes_concat(first, topics.skip(1));
    assert(first + topics.skip(1) =~= topics);
    law_topic_hashes_push(Seq::empty(), topics[0]);
    assert(Seq::<String>::empty().push(topics[0]) =~= first);
}

/// Every text of the entry can be cut after its first two bytes: each topic,
/// and the data unless it is empty.
pub open spec fn log_entry_cuttable(log: LogEntry) -> bool {
    &&& forall|i: int|
        0 <= i < log.topics@.len() ==> is_char_boundary(#[trigger] utf8(log.topics@[i]), 2)
    &&& utf8(log.data).len() == 0 || is_char_boundary(utf8(log.data), 2)
}

/// The bytes of `s` after its first two, which `s` can be cut at.
fn after_prefix(s: &str) -> (r: &[u8])
    requires
        is_char_boundary(s.spec_bytes(), 2),
    ensures
        r@ == s.spec_bytes().skip(2),
{
    let (_, rest) = s.split_at(2);
    assert(rest.spec_bytes() =~= s.spec_bytes().skip(2));
    rest.as_bytes()
}

/// Copies 32 bytes into an array.
fn to_array_32(v: &[u8]) -> (a: [u8; 32])
    requires
        v@.len() == 32,
    ensures
        a@ == v@,
{
    let mut a = [0u8; 32];
    let mut i: usize = 0;
    while i < 32
        invariant
            i <= 32,
            v@.len() == 32,
            a@.len() == 32,
            forall|k: int| 0 <= k < i ==> a@[k] == v@[k],
        decreases 32 - i,
    {
        a[i] = v[i];
        i = i + 1;
    }
    assert(a@ =~= v@);
    a
}

/// The raw log of a receipt's log entry: the 32-byte hashes of the topics
/// that spell one (others are skipped) and the data bytes (see
/// `log_data_bytes`). An entry with a text that cannot be cut after its
/// first two bytes is not accepted.
pub fn build_raw_log(log: &LogEntry) -> (raw: RawLog)
    requires
        log_entry_cuttable(*log),
    ensures
        raw.topics@.map_values(|h: [u8; 32]| h@) == topic_hashes(log.topics@),
        raw.data@ == log_data_bytes(utf8(log.data)),
{
    let logs = &log.topics;
    let mut hash_vec: Vec<[u8; 32]> = Vec::with_capacity(logs.len());
    let mut i: usize = 0;
    while i < logs.len()
        invariant
            i <= logs@.len(),
            logs@ == log.topics@,
            log_entry_cuttable(*log),
            hash_vec@.map_values(|h: [u8; 32]| h@) == topic_hashes(logs@.take(i as int)),
        decreases logs@.len() - i,
    {
        let t = logs[i].as_str();
        assert(utf8(logs@[i as int]) == t.spec_bytes());
        if let Some(bytes) = hex_decode(after_prefix(t)) {
            if bytes.len() == 32 {
                let h256 = to_array_32(bytes.as_slice());
                hash_vec.push(h256);
            }
        }
        assert(logs@.take(i + 1).drop_last() =~= logs@.take(i as int));
        assert(logs@.take(i + 1).last() == logs@[i as int]);
        assert(hash_vec@.map_values(|h: [u8; 32]| h@) =~= topic_hashes(logs@.take(i + 1)));
        i = i + 1;
    }
    assert(logs@.take(logs@.len() as int) =~= logs@);
    let data_text = log.data.as_str();
    assert(utf8(log.data) == data_text.spec_bytes());
    let raw_data = if data_text.as_bytes().len() == 0 {
        Vec::new()
    } else {
        if let Some(bytes) = hex_decode(after_prefix(data_text)) {
            bytes
        } else {
            Vec::new()
        }
    };
    RawLog { topics: hash_vec, data: raw_data }
}


/// The ABI type of a parameter.
#[derive(Debug, PartialEq)]
pub enum ParamKind {
    Address,
    Bytes,
    Int(usize),
    Uint(usize),
    Bool,
    Str,
    Array(Box<ParamKind>),
    FixedBytes(usize),
    FixedArray(Box<ParamKind>, usize),
    Tuple(Vec<ParamKind>),
}

/// A parameter of an event: its name, type, and whether it is a topic.
#[derive(Debug)]
pub struct AbiEventParam {
    pub name: String,
    pub kind: ParamKind,
    pub indexed: bool,
}

/// The ABI description of an event.
#[derive(Debug)]
pub struct AbiEvent {
    pub name: String,
    pub inputs: Vec<AbiEventParam>,
    pub anonymous: bool,
}

/// A decoded event parameter: its name and value.
#[derive(Debug, PartialEq)]
pub struct LogParam {
    pub name: String,
    pub value: AbiToken,
}

/// The topic hashes of a raw log, as byte sequences.
pub open spec fn raw_log_topics(raw_log: RawLog) -> Seq<Seq<u8>> {
    raw_log.topics@.map_values(|h: [u8; 32]| h@)
}

/// The parameters that ethabi decodes from a log with topics `topics` and
/// data `data` as the event `event`; none when it reports an error.
pub uninterp spec fn ethabi_log_params(event: AbiEvent, topics: Seq<Seq<u8>>, data: Seq<u8>) -> Option<
    Seq<LogParam>,
>;

/// ethabi's parameter type.
#[verifier::external_type_specification]
#[verifier::external_body]
pub struct ExParamType(ethabi::ParamType);

/// ethabi's ABI value.
#[verifier::external_type_specification]
#[verifier::external_body]
pub struct ExToken(ethabi::Token);

/// Converts a parameter type to ethabi's, variant for variant.
#[verifier::external_body]
pub(crate) fn to_ethabi_param_type(kind: &ParamKind) -> EthParamType {
    match kind {
        ParamKind::Address => EthParamType::Address,
        ParamKind::Bytes => EthParamType::Bytes,
        ParamKind::Int(n) => EthParamType::Int(*n),
        ParamKind::Uint(n) => EthParamType::Uint(*n),
        ParamKind::Bool => EthParamType::Bool,
        ParamKind::Str => EthParamType::String,
        ParamKind::Array(k) => EthParamType::Array(Box::new(to_ethabi_param_type(k))),
        ParamKind::FixedBytes(n) => EthParamType::FixedBytes(*n),
        ParamKind::FixedArray(k, n) => EthParamType::FixedArray(Box::new(to_ethabi_param_type(k)), *n),
        ParamKind::Tuple(ks) => EthParamType::Tuple(ks.iter().map(to_ethabi_param_type).collect()),
    }
}

/// Converts an ethabi value to the library's, variant for variant.
#[verifier::external_body]
pub(crate) fn token_from_ethabi(t: ethabi::Token) -> AbiToken {
    match t {
        EthToken::Address(a) => AbiToken::Address(a.0),
        EthToken::FixedBytes(b) => AbiToken::FixedBytes(b),
        EthToken::Bytes(b) => AbiToken::Bytes(b),
        EthToken::Int(n) => AbiToken::Int(U256(n.0)),
        EthToken::Uint(n) => AbiToken::Uint(U256(n.0)),
        EthToken::Bool(b) => AbiToken::Bool(b),
        EthToken::String(s) => AbiToken::Str(s),
        EthToken::FixedArray(v) => AbiToken::FixedArray(v.into_iter().map(token_from_ethabi).collect()),
        EthToken::Array(v) => AbiToken::Array(v.into_iter().map(token_from_ethabi).collect()),
        EthToken::Tuple(v) => AbiToken::Tuple(v.into_iter().map(token_from_ethabi).collect()),
    }
}

/// ethabi's event description.
#[verifier::external_type_specification]
#[verifier::external_body]
pub struct ExEvent(ethabi::Event);

/// Converts an event description to ethabi's, field for field.
#[verifier::external_body]
fn to_ethabi_event(event: &AbiEvent) -> ethabi::Event {
    ethabi::Event {
        name: event.name.clone(),
        inputs: event.inputs.iter().map(|p| ethabi::EventParam { name: p.name.clone(), kind: to_ethabi_param_type(&p.kind), indexed: p.indexed }).collect(),
        anonymous: event.anonymous,
    }
}

/// Decodes `raw_log` with `ethabi::Event::parse_log`, the event and the log
/// converted to ethabi's types and the decoded values converted back.
/// Claimed of it: the outcome is a function of the event and of the log's
/// topics and data alone.
#[verifier::external_body]
fn event_parse_log(event: &AbiEvent, raw_log: &RawLog) -> (res: Option<Vec<LogParam>>)
    ensures
        res is None <==> ethabi_log_params(*event, raw_log_topics(*raw_log), raw_log.data@) is None,
        res matches Some(v) ==> ethabi_log_params(*event, raw_log_topics(*raw_log), raw_log.data@)
            == Some(v@),
{
    let topics = raw_log.topics.iter().map(|t| H256(*t)).collect();
    match to_ethabi_event(event).parse_log(ethabi::RawLog { topics, data: raw_log.data.clone() }) {
        Ok(log) => Some(log.params.into_iter().map(|p| LogParam { name: p.name, value: token_from_ethabi(p.value) }).collect()),
        Err(_) => None,
    }
}

/// Records the outcome of decoding an event: the event's name and its
/// parameters are appended when it was decoded, and nothing changes when it
/// was not.
pub fn record_parsed_event(
    name: String,
    parsed: Option<Vec<LogParam>>,
    prase_result: &mut Vec<(String, Vec<LogParam>)>,
)
    ensures
        parsed is None ==> final(prase_result)@ == old(prase_result)@,
        parsed matches Some(p) ==> final(prase_result)@ == old(prase_result)@.push((name, p)),
{
    match parsed {
        Some(result_logs) => prase_result.push((name, result_logs)),
        None => {},
    }
}

/// Decodes `raw_log` as `event` and, when that succeeds, appends the
/// event's name and the decoded parameters to `prase_result`; when it fails
/// nothing changes.
pub fn parse_event(raw_log: RawLog, event: &AbiEvent, prase_result: &mut Vec<(String, Vec<LogParam>)>)
    ensures
        ethabi_log_params(*event, raw_log_topics(raw_log), raw_log.data@) is None
            ==> final(prase_result)@ == old(prase_result)@,
        ethabi_log_params(*event, raw_log_topics(raw_log), raw_log.data@) matches Some(params)
            ==> {
            &&& final(prase_result)@.len() == old(prase_result)@.len() + 1
            &&& final(prase_result)@.drop_last() == old(prase_result)@
            &&& final(prase_result)@.last().0 == event.name
            &&& final(prase_result)@.last().1@ == params
        },
{
    let result_log = event_parse_log(event, &raw_log);
    record_parsed_event(event.name.clone(), result_log, prase_result);
}

} // verus!
