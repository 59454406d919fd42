use std::collections::HashMap;

use kafka_decode::layout::{errcode_fixed_offset, topic_fixed_offset};
use kafka_decode::text::versioned_name;
use kafka_decode::{
    CacheUpdate, IpProtocol, KafkaError, KafkaInfo, KafkaLog, L7PerfStats, L7ProtocolSendLog,
    L7ResponseStatus,
    LogMessageType, PacketDirection, ParseParam, RrtCacheEntry,
};

fn request(api_key: u16, api_version: u16, correlation_id: u32, client_id: &[u8], body: &[u8]) -> Vec<u8> {
    let mut p = Vec::new();
    let len = (10 + client_id.len() + body.len()) as u32;
    p.extend_from_slice(&len.to_be_bytes());
    p.extend_from_slice(&api_key.to_be_bytes());
    p.extend_from_slice(&api_version.to_be_bytes());
    p.extend_from_slice(&correlation_id.to_be_bytes());
    p.extend_from_slice(&(client_id.len() as u16).to_be_bytes());
    p.extend_from_slice(client_id);
    p.extend_from_slice(body);
    p
}

fn response(correlation_id: u32, body: &[u8]) -> Vec<u8> {
    let mut p = Vec::new();
    p.extend_from_slice(&((4 + body.len()) as u32).to_be_bytes());
    p.extend_from_slice(&correlation_id.to_be_bytes());
    p.extend_from_slice(body);
    p
}

fn param(direction: PacketDirection, time: u64, rrt_timeout: u64) -> ParseParam {
    ParseParam {
        l4_protocol: IpProtocol::Tcp,
        direction,
        raw_protocol: true,
        time,
        rrt_timeout,
        parse_perf: true,
        parse_log: true,
    }
}

/// Feeds payloads to one parser, with a cache keyed by correlation id, and
/// returns the records produced.
fn run(
    kafka: &mut KafkaLog,
    packets: &[(Vec<u8>, PacketDirection, u64)],
    rrt_timeout: u64,
) -> Vec<KafkaInfo> {
    let mut cache: HashMap<u32, RrtCacheEntry> = HashMap::new();
    let mut out = Vec::new();
    for (payload, direction, time) in packets {
        let p = param(*direction, *time, rrt_timeout);
        let info = match kafka.parse_payload(payload, &p) {
            Ok(i) => i,
            Err(_) => continue,
        };
        let key = info.correlation_id;
        let previous = cache.get(&key).copied();
        let outcome = kafka.resolve(payload, &p, info, previous);
        match outcome.cache_update {
            CacheUpdate::Insert(e) => {
                cache.insert(key, e);
            }
            CacheUpdate::Remove => {
                cache.remove(&key);
            }
        }
        if let Some(r) = outcome.record {
            out.push(r);
        }
    }
    out
}

/// A produce (version 7) exchange and a fetch (version 11) exchange.
fn produce_exchange(rrt: u64) -> Vec<(Vec<u8>, PacketDirection, u64)> {
    let mut body = vec![0xff, 0xff, 0, 1, 0, 0, 0x75, 0x30, 0, 0, 0, 1, 0, 4];
    body.extend_from_slice(b"demo");
    body.extend_from_slice(&[0, 0, 0, 1, 0, 0, 0, 0]);
    let req = request(0, 7, 42, b"producer-1", &body);
    let mut rbody = vec![0, 0, 0, 1, 0, 4];
    rbody.extend_from_slice(b"demo");
    rbody.extend_from_slice(&[0, 0, 0, 1, 0, 0, 0, 0, 0, 0, 0, 0, 0, 0, 0, 0, 0, 0, 0, 0]);
    let resp = response(42, &rbody);
    vec![
        (req, PacketDirection::ClientToServer, 1_000_000),
        (resp, PacketDirection::ServerToClient, 1_000_000 + rrt),
    ]
}

fn fetch_exchange(rrt: u64) -> Vec<(Vec<u8>, PacketDirection, u64)> {
    let mut body = vec![0xff, 0xff, 0xff, 0xff, 0, 0, 1, 0xf4, 0, 0, 0, 1, 0, 0x10, 0, 0, 0];
    body.extend_from_slice(&[0, 0, 0, 0, 0, 0, 0, 0, 0, 0, 0, 1, 0, 5]);
    body.extend_from_slice(b"topic");
    let req = request(1, 11, 9, b"consumer", &body);
    let resp = response(9, &[0, 0, 0, 0, 0, 0, 0, 0, 0, 1, 0, 0, 0, 0]);
    vec![
        (req, PacketDirection::ClientToServer, 5_000_000),
        (resp, PacketDirection::ServerToClient, 5_000_000 + rrt),
    ]
}

#[test]
fn check_perf() {
    let expected = vec![
        (
            produce_exchange(4941),
            L7PerfStats {
                request_count: 1,
                response_count: 1,
                err_client_count: 0,
                err_server_count: 0,
                err_timeout: 0,
                rrt_count: 1,
                rrt_sum: 4941,
                rrt_max: 4941,
            },
        ),
        (
            fetch_exchange(504829),
            L7PerfStats {
                request_count: 1,
                response_count: 1,
                err_client_count: 0,
                err_server_count: 0,
                err_timeout: 0,
                rrt_count: 1,
                rrt_sum: 504829,
                rrt_max: 504829,
            },
        ),
    ];
    for (i, item) in expected.iter().enumerate() {
        let mut kafka = KafkaLog::default();
        run(&mut kafka, &item.0, 10_000_000);
        assert_eq!(item.1, kafka.perf_stats().unwrap(), "exchange {} unexpected", i);
    }
}

#[test]
fn layout_tables() {
    for v in 0..=2 {
        assert_eq!(topic_fixed_offset(0, v), Some(10));
        assert_eq!(topic_fixed_offset(1, v), Some(16));
    }
    for v in 3..=9 {
        assert_eq!(topic_fixed_offset(0, v), Some(12));
    }
    assert_eq!(topic_fixed_offset(0, 10), None);
    assert_eq!(topic_fixed_offset(1, 3), Some(20));
    for v in 4..=6 {
        assert_eq!(topic_fixed_offset(1, v), Some(21));
    }
    for v in 7..=12 {
        assert_eq!(topic_fixed_offset(1, v), Some(29));
    }
    assert_eq!(topic_fixed_offset(1, 13), None);
    assert_eq!(topic_fixed_offset(2, 0), None);
    for v in 0..=8 {
        assert_eq!(errcode_fixed_offset(0, v), Some(14));
    }
    assert_eq!(errcode_fixed_offset(0, 9), None);
    assert_eq!(errcode_fixed_offset(1, 0), Some(14));
    for v in 1..=6 {
        assert_eq!(errcode_fixed_offset(1, v), Some(18));
    }
    for v in 7..=15 {
        assert_eq!(errcode_fixed_offset(1, v), Some(4));
    }
    assert_eq!(errcode_fixed_offset(1, 16), None);
    assert_eq!(errcode_fixed_offset(3, 1), None);
}

#[test]
fn detection() {
    let kafka = KafkaLog::default();
    let p = param(PacketDirection::ClientToServer, 0, 1000);
    assert!(kafka.check_payload(&request(1, 7, 1, b"abc", &[0; 8]), &p));
    assert!(!kafka.check_payload(&request(68, 7, 1, b"abc", &[0; 8]), &p));
    assert!(!kafka.check_payload(&request(1, 7, 1, b"", &[0; 8]), &p));
    assert!(!kafka.check_payload(&request(1, 7, 1, &[0x61, 0xc3, 0xa9], &[0; 8]), &p));
    // the frame length must match the payload
    let mut longer = request(1, 7, 1, b"abc", &[0; 8]);
    longer.push(0);
    assert!(!kafka.check_payload(&longer, &p));
    // only raw TCP payloads
    let mut udp = p;
    udp.l4_protocol = IpProtocol::Udp;
    assert!(!kafka.check_payload(&request(1, 7, 1, b"abc", &[0; 8]), &udp));
    let mut decoded = p;
    decoded.raw_protocol = false;
    assert!(!kafka.check_payload(&request(1, 7, 1, b"abc", &[0; 8]), &decoded));
}

#[test]
fn truncated_client_id() {
    let mut payload = request(1, 7, 1, b"abcdef", &[]);
    payload.truncate(17);
    let mut kafka = KafkaLog::default();
    let p = param(PacketDirection::ClientToServer, 0, 1000);
    assert_eq!(kafka.parse_payload(&payload, &p).err(), Some(KafkaError::ParseFailed));
    let mut info = KafkaInfo::default();
    assert_eq!(kafka.request(&payload, false, &mut info), Err(KafkaError::ParseFailed));
    assert!(!kafka.check_payload(&payload, &p));
}

#[test]
fn short_envelopes() {
    let mut kafka = KafkaLog::default();
    let req = param(PacketDirection::ClientToServer, 0, 1000);
    let resp = param(PacketDirection::ServerToClient, 0, 1000);
    assert_eq!(kafka.parse_payload(&[0; 13], &req).err(), Some(KafkaError::ParseFailed));
    assert_eq!(kafka.parse_payload(&[0; 7], &resp).err(), Some(KafkaError::ParseFailed));
    let mut udp = req;
    udp.l4_protocol = IpProtocol::Udp;
    assert_eq!(
        kafka.parse_payload(&request(1, 7, 1, b"abc", &[]), &udp).err(),
        Some(KafkaError::InvalidTransport)
    );
    let stats = kafka.perf_stats().unwrap();
    assert_eq!(stats.request_count, 0);
    assert_eq!(stats.response_count, 0);
}

#[test]
fn non_ascii_client_id_fails_lenient_parse() {
    let mut kafka = KafkaLog::default();
    let p = param(PacketDirection::ClientToServer, 0, 1000);
    let payload = request(1, 7, 1, &[0x61, 0xff], &[]);
    assert_eq!(kafka.parse_payload(&payload, &p).err(), Some(KafkaError::ParseFailed));
}

#[test]
fn request_envelope_fields() {
    let mut kafka = KafkaLog::default();
    let p = param(PacketDirection::ClientToServer, 0, 1000);
    let payload = request(3, 12, 0x01020304, b"client", &[1, 2, 3]);
    let info = kafka.parse_payload(&payload, &p).unwrap();
    assert_eq!(info.msg_type, LogMessageType::Request);
    assert_eq!(info.req_msg_size, Some(19));
    assert_eq!(info.api_key, 3);
    assert_eq!(info.api_version, 12);
    assert_eq!(info.correlation_id, 0x01020304);
    assert_eq!(info.client_id, "client");
    assert_eq!(info.topics, None);
    assert_eq!(info.resp_msg_size, None);
}

#[test]
fn response_envelope_fields() {
    let mut kafka = KafkaLog::default();
    let p = param(PacketDirection::ServerToClient, 0, 1000);
    let info = kafka.parse_payload(&response(77, &[0, 0]), &p).unwrap();
    assert_eq!(info.msg_type, LogMessageType::Response);
    assert_eq!(info.resp_msg_size, Some(6));
    assert_eq!(info.correlation_id, 77);
    assert_eq!(info.req_msg_size, None);
}

#[test]
fn correlation_fetch_v7() {
    let mut kafka = KafkaLog::default();
    let packets = vec![
        (request(1, 7, 7, b"abc", &[0; 40]), PacketDirection::ClientToServer, 0),
        (response(7, &[0, 0, 0, 0, 0, 3, 0, 0]), PacketDirection::ServerToClient, 100),
    ];
    let records = run(&mut kafka, &packets, 1000);
    assert_eq!(records.len(), 2);
    let r = &records[1];
    assert_eq!(r.rrt, 100);
    assert_eq!(r.status_code, Some(3));
    assert_eq!(r.status, L7ResponseStatus::ServerError);
    assert_eq!(kafka.perf_stats().unwrap().err_server_count, 1);
}

#[test]
fn correlation_success_code() {
    let mut kafka = KafkaLog::default();
    let packets = vec![
        (request(1, 7, 7, b"abc", &[0; 40]), PacketDirection::ClientToServer, 0),
        (response(7, &[0, 0, 0, 0, 0, 0, 0, 0]), PacketDirection::ServerToClient, 100),
    ];
    let records = run(&mut kafka, &packets, 1000);
    assert_eq!(records[1].status_code, Some(0));
    assert_eq!(records[1].status, L7ResponseStatus::Success);
}

#[test]
fn correlation_out_of_window() {
    let mut kafka = KafkaLog::default();
    let packets = vec![
        (request(1, 7, 7, b"abc", &[0; 40]), PacketDirection::ClientToServer, 0),
        (response(7, &[0, 0, 0, 0, 0, 3, 0, 0]), PacketDirection::ServerToClient, 1000),
    ];
    let records = run(&mut kafka, &packets, 1000);
    assert_eq!(records[1].rrt, 0);
    assert_eq!(records[1].status, L7ResponseStatus::Unknown);
    assert_eq!(records[1].status_code, None);
}

#[test]
fn correlation_response_first() {
    let mut kafka = KafkaLog::default();
    let packets = vec![
        (response(7, &[0, 0, 0, 0, 0, 3, 0, 0]), PacketDirection::ServerToClient, 150),
        (request(1, 7, 7, b"abc", &[0; 40]), PacketDirection::ClientToServer, 100),
    ];
    let records = run(&mut kafka, &packets, 1000);
    // the cached response carried no decoded code
    assert_eq!(records[1].rrt, 50);
    assert_eq!(records[1].status, L7ResponseStatus::Success);
}

#[test]
fn set_status_code_given() {
    let mut kafka = KafkaLog::default();
    kafka.perf_stats = Some(L7PerfStats::default());
    let mut info = KafkaInfo::default();
    kafka.set_status_code(9, 9, &[], &mut info, Some(5));
    assert_eq!(info.status, L7ResponseStatus::ServerError);
    assert_eq!(info.status_code, None);
    assert_eq!(kafka.perf_stats.unwrap().err_server_count, 1);
    kafka.set_status_code(9, 9, &[], &mut info, Some(0));
    assert_eq!(info.status, L7ResponseStatus::Success);
}

#[test]
fn set_status_code_produce_with_topic_shift() {
    let mut kafka = KafkaLog::default();
    let mut info = KafkaInfo::default();
    // topic-array length 3 at bytes 4..6 moves the code from 14 to 17
    let mut body = vec![0, 0, 0, 1, 0, 3];
    body.extend_from_slice(&[0; 11]);
    body.extend_from_slice(&[0xff, 0xfe]);
    kafka.set_status_code(0, 2, &body, &mut info, None);
    assert_eq!(info.status_code, Some(-2));
    assert_eq!(info.status, L7ResponseStatus::ServerError);
}

#[test]
fn set_status_code_unsupported() {
    let mut kafka = KafkaLog::default();
    let mut info = KafkaInfo::default();
    kafka.set_status_code(0, 9, &[0; 40], &mut info, None);
    kafka.set_status_code(1, 12, &[0; 40], &mut info, None);
    kafka.set_status_code(5, 1, &[0; 40], &mut info, None);
    kafka.set_status_code(1, 7, &[0; 5], &mut info, None);
    assert_eq!(info.status, L7ResponseStatus::Unknown);
    assert_eq!(info.status_code, None);
}

#[test]
fn produce_v3_topic() {
    let mut body = vec![0, 0, 0, 1, 0, 0, 0x75, 0x30, 0, 0, 0, 1, 0, 5];
    body.extend_from_slice(b"topicA");
    let payload = request(0, 3, 1, b"cli", &body);
    let mut kafka = KafkaLog::default();
    let p = param(PacketDirection::ClientToServer, 0, 1000);
    let info = kafka.parse_payload(&payload, &p).unwrap();
    assert_eq!(info.topics.as_deref(), Some("topic"));
}

#[test]
fn produce_v3_transactional_id_shifts_topic() {
    let mut body = vec![0, 2, b't', b'x', 0, 1, 0, 0, 0x75, 0x30, 0, 0, 0, 1, 0, 3];
    body.extend_from_slice(b"abc");
    let kafka = KafkaLog::default();
    assert_eq!(kafka.get_topics_name(0, 3, &body).as_deref(), Some("abc"));
    // a topic length that runs past the payload gives no name
    assert_eq!(kafka.get_topics_name(0, 3, &body[..17]), None);
    assert_eq!(kafka.get_topics_name(0, 3, &[0]), None);
}

#[test]
fn fetch_topics() {
    let kafka = KafkaLog::default();
    let mut body = vec![0; 16];
    body.extend_from_slice(&[0, 2, b'o', b'k']);
    assert_eq!(kafka.get_topics_name(1, 0, &body).as_deref(), Some("ok"));
    assert_eq!(kafka.get_topics_name(1, 0, &body[..19]), None);
    assert_eq!(kafka.get_topics_name(1, 13, &body), None);
    assert_eq!(kafka.get_topics_name(4, 0, &body), None);
}

#[test]
fn compact_topic_validation() {
    let kafka = KafkaLog::default();
    // fetch version 12: a compact string at 29; the span holds its length byte
    let mut body = vec![0; 29];
    body.extend_from_slice(&[5, b't', b'o', b'p', b'i', b'c']);
    assert_eq!(kafka.get_topics_name(1, 12, &body).as_deref(), Some("\u{5}topic"));
    // an odd span is malformed as UTF-16BE
    let mut odd = vec![0; 29];
    odd.extend_from_slice(&[4, b't', b'o', b'p', b'i']);
    assert_eq!(kafka.get_topics_name(1, 12, &odd), None);
    // the span runs past the payload
    assert_eq!(kafka.get_topics_name(1, 12, &body[..33]), None);
    // produce version 9: a one-byte transactional-id length shifts the offset
    let mut produce_v9 = vec![2, 0, 0];
    produce_v9.extend_from_slice(&[0; 11]);
    produce_v9.extend_from_slice(&[3, b'a', b'b', b'c']);
    assert_eq!(kafka.get_topics_name(0, 9, &produce_v9).as_deref(), Some("\u{3}abc"));
}

#[test]
fn merge_with_default_is_identity() {
    let mut record = KafkaInfo::default();
    record.correlation_id = 4;
    record.resp_msg_size = Some(10);
    record.status = L7ResponseStatus::ServerError;
    record.status_code = Some(7);
    record.topics = Some("t".to_string());
    record.client_id = "c".to_string();
    let before = format!("{:?}", record);
    record.merge(KafkaInfo::default());
    assert_eq!(format!("{:?}", record), before);
}

#[test]
fn merge_takes_new_values() {
    let mut record = KafkaInfo::default();
    record.resp_msg_size = Some(10);
    let mut other = KafkaInfo::default();
    other.resp_msg_size = Some(20);
    other.status = L7ResponseStatus::Success;
    other.status_code = Some(0);
    other.topics = Some("x".to_string());
    record.merge(other);
    assert_eq!(record.resp_msg_size, Some(10));
    assert_eq!(record.status, L7ResponseStatus::Success);
    assert_eq!(record.status_code, Some(0));
    assert_eq!(record.topics.as_deref(), Some("x"));
}

#[test]
fn counters_one_exchange() {
    let mut kafka = KafkaLog::default();
    let records = run(&mut kafka, &fetch_exchange(321), 10_000_000);
    let rrt = records[1].rrt;
    assert_eq!(rrt, 321);
    let stats = kafka.perf_stats().unwrap();
    assert_eq!(stats.request_count, 1);
    assert_eq!(stats.response_count, 1);
    assert_eq!(stats.rrt_count, 1);
    assert_eq!(stats.rrt_sum, rrt);
    assert_eq!(stats.rrt_max, rrt);
    assert!(kafka.perf_stats().is_none());
}

#[test]
fn no_record_without_log() {
    let mut kafka = KafkaLog::default();
    let mut p = param(PacketDirection::ClientToServer, 0, 1000);
    p.parse_log = false;
    let info = kafka.parse_payload(&request(1, 7, 1, b"abc", &[]), &p).unwrap();
    let out = kafka.resolve(&request(1, 7, 1, b"abc", &[]), &p, info, None);
    assert!(out.record.is_none());
    match out.cache_update {
        CacheUpdate::Insert(e) => {
            assert_eq!(e.msg_type, LogMessageType::Request);
            assert_eq!(e.api_key, 1);
            assert_eq!(e.api_version, 7);
        }
        CacheUpdate::Remove => panic!("nothing to pair with"),
    }
}

#[test]
fn check_record() {
    let mut info = KafkaInfo::default();
    info.client_id = "abc".to_string();
    info.api_key = 67;
    assert!(info.check());
    info.api_key = 68;
    assert!(!info.check());
    info.api_key = 1;
    info.client_id = "é".to_string();
    assert!(!info.check());
}

#[test]
fn command_names() {
    let mut info = KafkaInfo::default();
    assert_eq!(info.get_command(), "Produce");
    info.api_key = 1;
    assert_eq!(info.get_command(), "Fetch");
    info.api_key = 58;
    assert_eq!(info.get_command(), "AllocateProducerIds");
    info.api_key = 59;
    assert_eq!(info.get_command(), "");
}

#[test]
fn send_log_fields() {
    let mut info = KafkaInfo::default();
    info.api_key = 1;
    info.api_version = 12;
    info.correlation_id = 5;
    info.req_msg_size = Some(30);
    let log = L7ProtocolSendLog::from_info(info.clone());
    assert_eq!(log.req_type, "Fetch_v12");
    assert_eq!(log.resource, "");
    assert_eq!(log.code, Some(0));
    assert_eq!(log.request_id, Some(5));
    assert_eq!(log.req_len, Some(30));
    assert_eq!(log.resp_len, None);
    info.api_key = 70;
    info.api_version = 0;
    info.topics = Some("orders".to_string());
    info.status_code = Some(-1);
    info.status = L7ResponseStatus::ServerError;
    let log = L7ProtocolSendLog::from_info(info);
    assert_eq!(log.req_type, "_v0");
    assert_eq!(log.resource, "orders");
    assert_eq!(log.code, Some(-1));
    assert_eq!(log.status, L7ResponseStatus::ServerError);
}

#[test]
fn topic_bytes_decoded_lossily() {
    let kafka = KafkaLog::default();
    let mut body = vec![0; 16];
    body.extend_from_slice(&[0, 3, b'a', 0xff, b'b']);
    assert_eq!(kafka.get_topics_name(1, 1, &body).as_deref(), Some("a\u{fffd}b"));
}

#[test]
fn strict_rejects_empty_client_id() {
    let kafka = KafkaLog::default();
    let payload = [0, 0, 0, 10, 0, 3, 0, 0, 0, 0, 0, 1, 0, 0];
    let mut info = KafkaInfo::default();
    assert_eq!(kafka.request(&payload, true, &mut info), Err(KafkaError::ParseFailed));
    assert_eq!(info.msg_type, LogMessageType::Other);
    // lenient decoding keeps the envelope
    assert_eq!(kafka.request(&payload, false, &mut info), Ok(()));
    assert_eq!(info.api_key, 3);
    assert_eq!(info.correlation_id, 1);
    assert_eq!(info.client_id, "");
}

#[test]
fn operation_labels() {
    assert_eq!(versioned_name("Produce", 0), "Produce_v0");
    assert_eq!(versioned_name("Fetch", 65535), "Fetch_v65535");
    assert_eq!(versioned_name("", 407), "_v407");
}
