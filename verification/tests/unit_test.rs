//! Tests of each module of the fleet-bottle library.

use fleet_bottle::payload::{AlertSeverity, VoteValue};
use fleet_bottle::protocol::{decode, encode, WireError, BINARY_VERSION, HEADER_LEN};
use fleet_bottle::transport::MemoryTransport;
use fleet_bottle::{
    AlertMessage, Bottle, BottleCommand, BottlePayload, BottleState, ConsensusVote,
    DiscoveryReport, Duration, Priority, Timestamp, WireFormat,
};
use serde_json::Value;
use chrono::{DateTime, Utc};

fn sample_json() -> Vec<u8> {
    let mut map = serde_json::Map::new();
    map.insert("from".into(), Value::String("agent-test".into()));
    map.insert("to".into(), Value::String("agent-target".into()));
    map.insert("priority".into(), Value::String("High".into()));
    let mut payload = serde_json::Map::new();
    payload.insert("type".into(), Value::String("Text".into()));
    payload.insert("data".into(), Value::String("hello wire".into()));
    map.insert("payload".into(), Value::Object(payload));
    serde_json::to_vec(&Value::Object(map)).unwrap()
}

// bottle

#[test]
fn build_directed_bottle() {
    let bottle = Bottle::builder("agent-alpha")
        .to("agent-bravo")
        .payload(BottlePayload::Text("status report".into()))
        .priority(Priority::High)
        .build();

    assert_eq!(bottle.from, "agent-alpha");
    assert_eq!(bottle.to.as_ref().unwrap(), "agent-bravo");
    assert!(bottle.is_directed());
    assert!(!bottle.is_broadcast());
    assert_eq!(bottle.priority, Priority::High);
}

#[test]
fn build_broadcast_bottle() {
    let bottle = Bottle::builder("agent-alpha")
        .payload(BottlePayload::Discovery(DiscoveryReport {
            subject: "new-node".into(),
            details: vec!["joined fleet".into()],
            confidence_bits: 1.0f64.to_bits(),
        }))
        .build();

    assert!(bottle.is_broadcast());
    assert!(!bottle.is_directed());
    assert!(bottle.to.is_none());
}

#[test]
fn ttl_expiry() {
    let bottle = Bottle::builder("a")
        .to("b")
        .payload(BottlePayload::Text("ephemeral".into()))
        .ttl(Duration::seconds(60))
        .build();

    // Not expired yet (created just now).
    assert!(!bottle.is_expired(Timestamp::now()));

    // Expired after TTL.
    let future = bottle.timestamp.checked_add(Duration::seconds(120)).unwrap();
    assert!(bottle.is_expired(future));

    // expires_at is set.
    assert!(bottle.expires_at().is_some());
}

#[test]
fn no_ttl_never_expires() {
    let bottle = Bottle::builder("a")
        .payload(BottlePayload::Text("permanent".into()))
        .build();

    assert!(!bottle.is_expired(Timestamp::now()));
    assert!(bottle.expires_at().is_none());
}

#[test]
fn metadata_attachment() {
    let bottle = Bottle::builder("a")
        .to("b")
        .payload(BottlePayload::Text("with-meta".into()))
        .meta("trace_id", Value::String("abc-123".into()))
        .meta("retry_count", Value::Number(3.into()))
        .build();

    assert_eq!(bottle.metadata.get("trace_id").unwrap(), "abc-123");
    assert_eq!(bottle.metadata.get("retry_count").unwrap(), 3);
}

#[test]
fn priority_ordering() {
    assert!(Priority::Emergency > Priority::High);
    assert!(Priority::High > Priority::Normal);
    assert!(Priority::Normal > Priority::Low);
}

// payload

#[test]
fn command_builder() {
    let cmd = BottleCommand::new("deploy")
        .arg("fleet-edge-worker")
        .arg("--production")
        .expect_ack();
    assert_eq!(cmd.name, "deploy");
    assert_eq!(cmd.args, vec!["fleet-edge-worker", "--production"]);
    assert!(cmd.expects_ack);
}

#[test]
fn state_builder() {
    let state = BottleState::new("vector-index")
        .entry("vectors", "1012")
        .entry("dimensions", "384");
    assert_eq!(state.component, "vector-index");
    assert_eq!(state.data.len(), 2);
}

// protocol

#[test]
fn json_roundtrip() {
    let json = sample_json();
    let encoded = encode(json.clone(), WireFormat::Json).unwrap();
    let decoded = decode(&encoded).unwrap();

    assert_eq!(json, decoded);
}

#[test]
fn binary_roundtrip() {
    let json = sample_json();
    let encoded = encode(json.clone(), WireFormat::BinaryV1).unwrap();
    let decoded = decode(&encoded).unwrap();

    assert_eq!(json, decoded);
}

#[test]
fn auto_detect_json() {
    let json = sample_json();
    let encoded = encode(json.clone(), WireFormat::Json).unwrap();
    let decoded: Value = serde_json::from_slice(decode(&encoded).unwrap()).unwrap();
    assert_eq!(serde_json::from_slice::<Value>(&json).unwrap(), decoded);
}

#[test]
fn auto_detect_binary() {
    let json = sample_json();
    let encoded = encode(json.clone(), WireFormat::BinaryV1).unwrap();
    // decode auto-detects via magic bytes
    let decoded = decode(&encoded).unwrap();
    assert_eq!(json, decoded);
}

#[test]
fn binary_smaller_than_json() {
    // Binary has a 9-byte header overhead but the same JSON payload inside.
    let json = encode(sample_json(), WireFormat::Json).unwrap();
    let binary = encode(sample_json(), WireFormat::BinaryV1).unwrap();
    assert_eq!(binary.len(), json.len() + 9);
}

#[test]
fn bad_magic_rejected() {
    let data = vec![0x00; 20];
    // Read as JSON, not as a binary frame, and refused by the JSON parser.
    let body = decode(&data).unwrap();
    assert_eq!(body, &data[..]);
    assert!(serde_json::from_slice::<Value>(body).is_err());
}

#[test]
fn truncated_binary_rejected() {
    let mut encoded = encode(sample_json(), WireFormat::BinaryV1).unwrap();
    encoded.truncate(7); // truncate in the middle of length field
    let result = decode(&encoded);
    assert!(result.is_err());
}

// transport

#[test]
fn memory_transport_json_roundtrip() {
    let mut transport = MemoryTransport::new(WireFormat::Json);
    let json = sample_json();

    transport.inject(json.clone()).unwrap();
    let received = transport.receive();

    assert_eq!(received.len(), 1);
    assert_eq!(received[0], Ok(json));
}

#[test]
fn memory_transport_binary_roundtrip() {
    let mut transport = MemoryTransport::new(WireFormat::BinaryV1);
    let json = sample_json();

    transport.inject(json.clone()).unwrap();
    let received = transport.receive();

    assert_eq!(received.len(), 1);
    assert_eq!(received[0], Ok(json));
}

#[test]
fn memory_transport_multiple_bottles() {
    let mut transport = MemoryTransport::new(WireFormat::Json);

    let b1 = br#"{"text":"one"}"#.to_vec();
    let b2 = br#"{"text":"two"}"#.to_vec();

    transport.inject(b1.clone()).unwrap();
    transport.inject(b2.clone()).unwrap();

    let received = transport.receive();
    assert_eq!(received.len(), 2);
    assert_eq!(received[0], Ok(b1));
    assert_eq!(received[1], Ok(b2));
}

#[test]
fn receive_drains_buffer() {
    let mut transport = MemoryTransport::new(WireFormat::Json);

    transport.inject(br#"{"text":"once"}"#.to_vec()).unwrap();
    let _ = transport.receive();
    let empty = transport.receive();

    assert!(empty.is_empty());
}

// further cases

#[test]
fn binary_frame_layout() {
    let frame = encode(b"{}".to_vec(), WireFormat::BinaryV1).unwrap();
    assert_eq!(frame, vec![0xF1, 0xB0, 0x71, 0x1E, BINARY_VERSION, 0, 0, 0, 2, b'{', b'}']);
    assert_eq!(frame.len(), HEADER_LEN + 2);
}

#[test]
fn binary_length_is_big_endian() {
    let json = vec![b' '; 0x0102_03];
    let frame = encode(json, WireFormat::BinaryV1).unwrap();
    assert_eq!(&frame[5..9], &[0x00, 0x01, 0x02, 0x03]);
}

#[test]
fn json_format_sends_payload_as_is() {
    let json = b"{\"a\":1}".to_vec();
    assert_eq!(encode(json.clone(), WireFormat::Json).unwrap(), json);
}

#[test]
fn short_frame_reports_too_short() {
    let data = [0xF1, 0xB0, 0x71, 0x1E, BINARY_VERSION, 0, 0];
    assert_eq!(decode(&data), Err(WireError::BinaryDecode("frame too short".into())));
}

#[test]
fn truncated_payload_reports_truncated() {
    let data = [0xF1, 0xB0, 0x71, 0x1E, BINARY_VERSION, 0, 0, 0, 10, b'{', b'}', b' '];
    assert_eq!(
        decode(&data),
        Err(WireError::BinaryDecode("frame truncated — not enough data".into()))
    );
}

#[test]
fn bytes_past_announced_payload_are_ignored() {
    let data = [0xF1, 0xB0, 0x71, 0x1E, BINARY_VERSION, 0, 0, 0, 2, b'{', b'}', 0xAA, 0xBB];
    assert_eq!(decode(&data), Ok(&b"{}"[..]));
}

#[test]
fn other_version_is_read_as_json() {
    let data = [0xF1, 0xB0, 0x71, 0x1E, 2, 0, 0, 0, 0];
    assert_eq!(decode(&data), Ok(&data[..]));
}

#[test]
fn injected_raw_frame_is_decoded_on_receive() {
    let mut transport = MemoryTransport::new(WireFormat::Json);
    transport.inject_raw(vec![0xF1, 0xB0, 0x71, 0x1E, BINARY_VERSION, 0]);
    transport.inject_raw(b"{}".to_vec());
    let received = transport.receive();
    assert_eq!(received.len(), 2);
    assert_eq!(received[0], Err(WireError::BinaryDecode("frame too short".into())));
    assert_eq!(received[1], Ok(b"{}".to_vec()));
}

#[test]
fn transport_keeps_its_format() {
    let transport = MemoryTransport::new(WireFormat::BinaryV1);
    assert_eq!(transport.wire_format(), WireFormat::BinaryV1);
}

#[test]
fn priority_levels_and_default() {
    assert_eq!(Priority::Low.level(), 0);
    assert_eq!(Priority::Normal.level(), 1);
    assert_eq!(Priority::High.level(), 2);
    assert_eq!(Priority::Emergency.level(), 3);
    assert_eq!(Priority::default(), Priority::Normal);
    assert_eq!(
        Priority::Low.partial_cmp(&Priority::Emergency),
        Some(std::cmp::Ordering::Less)
    );
    assert!(Priority::High >= Priority::High);
    assert_eq!(Priority::High.max(Priority::Low), Priority::High);
}

#[test]
fn builder_defaults() {
    let bottle = Bottle::builder("a").payload(BottlePayload::Text("x".into())).build();
    assert_eq!(bottle.from, "a");
    assert!(bottle.to.is_none());
    assert!(bottle.ttl.is_none());
    assert_eq!(bottle.priority, Priority::Normal);
    assert_eq!(bottle.metadata.len(), 0);
}

#[test]
fn build_with_uses_given_id_and_time() {
    let id = uuid::Uuid::from_u128(42);
    let at = Timestamp::from_parts(1_700_000_000, 5).unwrap();
    let bottle = Bottle::builder("a")
        .payload(BottlePayload::Text("x".into()))
        .ttl(Duration::seconds(10))
        .build_with(id, at);
    assert_eq!(bottle.id, id);
    assert_eq!(bottle.timestamp, at);
    let exp = bottle.expires_at().unwrap();
    assert_eq!(exp.whole_seconds(), 1_700_000_010);
    assert_eq!(exp.subsec_nanos(), 5);
    assert!(!bottle.is_expired(exp));
    assert!(bottle.is_expired(Timestamp::from_parts(1_700_000_010, 6).unwrap()));
    assert!(!bottle.is_expired(at));
}

#[test]
fn meta_replaces_value_of_same_key() {
    let bottle = Bottle::builder("a")
        .payload(BottlePayload::Text("x".into()))
        .meta("k", Value::from(1))
        .meta("j", Value::from(2))
        .meta("k", Value::from(3))
        .build();
    assert_eq!(bottle.metadata.len(), 2);
    assert_eq!(bottle.metadata.get("k").unwrap(), 3);
    assert_eq!(bottle.metadata.get("j").unwrap(), 2);
    assert!(bottle.metadata.get("z").is_none());
    let entries = bottle.metadata.entries();
    assert_eq!(entries[0].0, "k");
    assert_eq!(entries[1].0, "j");
}

#[test]
fn timestamp_addition_is_exact() {
    let t = Timestamp::from_parts(100, 999_999_999).unwrap();
    let d = Duration::new(0, 2).unwrap();
    let s = t.checked_add(d).unwrap();
    assert_eq!((s.whole_seconds(), s.subsec_nanos()), (101, 1));
    let back = s.checked_add(Duration::new(-1, 999_999_998).unwrap()).unwrap();
    assert_eq!(back, t);
    assert!(s.is_after(&t));
    assert!(!t.is_after(&s));
    assert!(!t.is_after(&t));
}

#[test]
fn timestamp_range_matches_chrono() {
    let min = DateTime::<Utc>::MIN_UTC;
    let max = DateTime::<Utc>::MAX_UTC;
    assert_eq!(min.timestamp(), fleet_bottle::time::MIN_UTC_SECS);
    assert_eq!(max.timestamp(), fleet_bottle::time::MAX_UTC_SECS);
    assert_eq!(max.timestamp_subsec_nanos(), 999_999_999);
    assert!(Timestamp::from_parts(fleet_bottle::time::MIN_UTC_SECS, 0).is_some());
    assert!(Timestamp::from_parts(fleet_bottle::time::MIN_UTC_SECS - 1, 999_999_999).is_none());
    assert!(Timestamp::from_parts(fleet_bottle::time::MAX_UTC_SECS, 999_999_999).is_some());
    assert!(Timestamp::from_parts(fleet_bottle::time::MAX_UTC_SECS + 1, 0).is_none());
    assert!(Timestamp::from_parts(0, 1_000_000_000).is_none());
}

#[test]
fn timestamp_addition_out_of_range_is_none() {
    let t = Timestamp::from_parts(fleet_bottle::time::MAX_UTC_SECS, 999_999_999).unwrap();
    assert!(t.checked_add(Duration::new(0, 1).unwrap()).is_none());
    assert!(t.checked_add(Duration::new(0, 0).unwrap()).is_some());
    let lo = Timestamp::from_parts(fleet_bottle::time::MIN_UTC_SECS, 0).unwrap();
    assert!(lo.checked_add(Duration::new(-1, 999_999_999).unwrap()).is_none());
}

#[test]
fn duration_constructors() {
    let d = Duration::minutes(5);
    assert_eq!((d.whole_seconds(), d.subsec_nanos()), (300, 0));
    let d = Duration::seconds(-7);
    assert_eq!((d.whole_seconds(), d.subsec_nanos()), (-7, 0));
    assert!(Duration::new(0, 1_000_000_000).is_none());
    assert!(Duration::new(9_223_372_036_854_775, 807_000_000).is_some());
    assert!(Duration::new(9_223_372_036_854_775, 807_000_001).is_none());
    assert!(Duration::new(-9_223_372_036_854_776, 193_000_000).is_some());
    assert!(Duration::new(-9_223_372_036_854_776, 192_999_999).is_none());
    let chrono_max = chrono::TimeDelta::MAX;
    assert_eq!(chrono_max.num_seconds(), 9_223_372_036_854_775);
}

#[test]
fn now_is_representable() {
    let now = Timestamp::now();
    assert!(now.subsec_nanos() < 1_000_000_000);
    assert!(now.whole_seconds() > 1_600_000_000);
}

#[test]
fn vote_and_alert_values() {
    let vote = ConsensusVote {
        round_id: "r1".into(),
        proposal: "deploy v2".into(),
        vote: VoteValue::Abstain,
    };
    assert_eq!(vote.clone(), vote);
    let alert = AlertMessage {
        severity: AlertSeverity::Info,
        message: "m".into(),
        action: None,
    };
    assert_ne!(alert.severity, AlertSeverity::Critical);
}

#[test]
fn duration_from_signed_parts() {
    let d = Duration::from_signed_parts(-1, -500_000_000).unwrap();
    assert_eq!((d.whole_seconds(), d.subsec_nanos()), (-2, 500_000_000));
    let d = Duration::from_signed_parts(3, 7).unwrap();
    assert_eq!((d.whole_seconds(), d.subsec_nanos()), (3, 7));
    assert!(Duration::from_signed_parts(0, 1_000_000_000).is_none());
    assert!(Duration::from_signed_parts(0, -1_000_000_000).is_none());
    assert!(Duration::from_signed_parts(i64::MIN, -1).is_none());
    let chrono_span = chrono::TimeDelta::milliseconds(-1500);
    let d = Duration::from_signed_parts(chrono_span.num_seconds(), chrono_span.subsec_nanos())
        .unwrap();
    assert_eq!((d.whole_seconds(), d.subsec_nanos()), (-2, 500_000_000));
}

#[test]
fn metadata_equality_ignores_order() {
    let a = Bottle::builder("a")
        .payload(BottlePayload::Text("x".into()))
        .meta("k", Value::from(1))
        .meta("j", Value::from(2))
        .build();
    let b = Bottle::builder("a")
        .payload(BottlePayload::Text("x".into()))
        .meta("j", Value::from(2))
        .meta("k", Value::from(1))
        .build();
    assert!(a.metadata == b.metadata);
    let c = Bottle::builder("a")
        .payload(BottlePayload::Text("x".into()))
        .meta("j", Value::from(2))
        .meta("k", Value::from(9))
        .build();
    assert!(a.metadata != c.metadata);
    let d = Bottle::builder("a")
        .payload(BottlePayload::Text("x".into()))
        .meta("k", Value::from(1))
        .build();
    assert!(a.metadata != d.metadata);
}

#[test]
fn bottle_clone_is_equal() {
    let b = Bottle::builder("a")
        .to("b")
        .payload(BottlePayload::Text("x".into()))
        .meta("k", Value::from(1))
        .ttl(Duration::seconds(5))
        .build();
    let c = b.clone();
    assert_eq!(b, c);
    assert_eq!(c.metadata.get("k").unwrap(), 1);
}

#[test]
fn discovery_confidence_compares_as_numbers() {
    let report = |bits: u64| DiscoveryReport {
        subject: "s".into(),
        details: vec!["d".into()],
        confidence_bits: bits,
    };
    assert_eq!(report(0.0f64.to_bits()), report((-0.0f64).to_bits()));
    assert_ne!(report(f64::NAN.to_bits()), report(f64::NAN.to_bits()));
    assert_eq!(report(0.92f64.to_bits()), report(0.92f64.to_bits()));
    assert_ne!(report(0.92f64.to_bits()), report(0.93f64.to_bits()));
    let mut other = report(0.5f64.to_bits());
    other.details.push("e".into());
    assert_ne!(report(0.5f64.to_bits()), other);
}

#[test]
fn built_bottle_is_stamped_after_epoch() {
    let b = Bottle::builder("a").payload(BottlePayload::Text("x".into())).build();
    assert!(b.timestamp.whole_seconds() >= 0);
}

#[test]
fn metadata_values_compare_as_json() {
    let a = Bottle::builder("a")
        .payload(BottlePayload::Text("x".into()))
        .meta("z", Value::from(0.0))
        .build();
    let b = Bottle::builder("a")
        .payload(BottlePayload::Text("x".into()))
        .meta("z", Value::from(-0.0))
        .build();
    assert!(a.metadata == b.metadata);
    assert!(a.metadata == a.metadata.clone());
}
