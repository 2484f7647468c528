use lockwise::devices::LockState;
use lockwise::engine::{parse_device_id, Engine, StatusEffect, TopicError};
use lockwise::registry::{wait_status, WaitOutcome, ACK_TIMEOUT_MS};
use serde_cbor::Value;
use std::collections::BTreeMap;

const ID: &str = "123e4567-e89b-12d3-a456-426614174000";
const TOPIC: &str = "lockwise/123e4567-e89b-12d3-a456-426614174000/status";

fn text(s: &str) -> Value {
    Value::Text(s.to_string())
}

fn encode(fields: Vec<(&str, Value)>) -> Vec<u8> {
    let mut m = BTreeMap::new();
    for (k, v) in fields {
        m.insert(text(k), v);
    }
    serde_cbor::to_vec(&Value::Map(m)).unwrap()
}

fn heartbeat(uptime: u64, lock_state: Option<&str>) -> Vec<u8> {
    let mut f = vec![
        ("heartbeat", text("HEARTBEAT")),
        ("uptime_ms", Value::Integer(uptime as i128)),
        ("timestamp", Value::Integer(100)),
        ("wifi_ssid", text("home")),
        ("backend_url", text("https://b.example")),
        ("mqtt_broker_url", text("mqtt://m.example")),
        ("mqtt_heartbeat_enable", Value::Bool(true)),
        ("mqtt_heartbeat_interval_sec", Value::Integer(30)),
        ("audio_record_timeout_sec", Value::Integer(5)),
        ("lock_timeout_ms", Value::Integer(10000)),
        ("pairing_timeout_sec", Value::Integer(120)),
        ("user_id", text("owner-1")),
        ("voice_detection_enable", Value::Bool(false)),
        ("vad_rms_threshold", Value::Integer(400)),
    ];
    if let Some(s) = lock_state {
        f.push(("lock_state", text(s)));
    }
    encode(f)
}

fn event(kind: &str, ts: u64) -> Vec<u8> {
    encode(vec![
        ("event", text(kind)),
        ("uptime_ms", Value::Integer(1)),
        ("timestamp", Value::Integer(ts as i128)),
    ])
}

fn lock_report(lock: &str, reason: &str, ts: u64) -> Vec<u8> {
    encode(vec![
        ("lock", text(lock)),
        ("reason", text(reason)),
        ("uptime_ms", Value::Integer(1)),
        ("timestamp", Value::Integer(ts as i128)),
    ])
}

fn device() -> u128 {
    parse_device_id(ID).unwrap()
}

#[test]
fn parse_device_id_reads_uuid() {
    assert_eq!(device(), 0x123e4567_e89b_12d3_a456_426614174000u128);
    assert_eq!(parse_device_id("not-a-uuid"), None);
}

#[test]
fn scenario_a_probe_acknowledged_at_three_seconds() {
    let mut e = Engine::new();
    let w = e.begin_probe(device(), 0).unwrap();
    assert_eq!(w.deadline_ms, 10_000);
    let r = e.handle_status(TOPIC, &event("PONG", 3), 3_000);
    match r {
        Ok((d, StatusEffect::ProbeAck { completed })) => {
            assert_eq!(d, device());
            assert_eq!(completed, Some(w.ticket));
            assert_eq!(wait_status(&w, completed, 3_000), WaitOutcome::Resolved);
        }
        _ => panic!("expected a probe acknowledgment"),
    }
}

#[test]
fn scenario_b_probe_times_out_at_ten_seconds() {
    let mut e = Engine::new();
    let w = e.begin_probe(device(), 0).unwrap();
    assert_eq!(wait_status(&w, None, 9_999), WaitOutcome::Waiting);
    assert_eq!(wait_status(&w, None, 10_000), WaitOutcome::TimedOut);
    assert!(e.expire_probe(&w));
    // a late acknowledgment is dropped silently
    match e.handle_status(TOPIC, &event("PONG", 11), 11_000) {
        Ok((_, StatusEffect::ProbeAck { completed })) => assert_eq!(completed, None),
        _ => panic!("expected a probe acknowledgment"),
    }
}

#[test]
fn ack_at_deadline_does_not_resolve() {
    let mut e = Engine::new();
    let w = e.begin_probe(device(), 0).unwrap();
    match e.handle_status(TOPIC, &event("PONG", 10), ACK_TIMEOUT_MS) {
        Ok((_, StatusEffect::ProbeAck { completed })) => {
            assert_eq!(completed, None);
            assert_eq!(wait_status(&w, completed, ACK_TIMEOUT_MS), WaitOutcome::TimedOut);
        }
        _ => panic!("expected a probe acknowledgment"),
    }
}

#[test]
fn second_probe_replaces_first() {
    let mut e = Engine::new();
    let w1 = e.begin_probe(device(), 0).unwrap();
    let w2 = e.begin_probe(device(), 1_000).unwrap();
    assert_ne!(w1.ticket, w2.ticket);
    let completed = match e.handle_status(TOPIC, &event("PONG", 2), 2_000) {
        Ok((_, StatusEffect::ProbeAck { completed })) => completed,
        _ => panic!("expected a probe acknowledgment"),
    };
    assert_eq!(completed, Some(w2.ticket));
    assert_eq!(wait_status(&w2, completed, 2_000), WaitOutcome::Resolved);
    assert_eq!(wait_status(&w1, completed, 2_000), WaitOutcome::Waiting);
    assert_eq!(wait_status(&w1, completed, 10_000), WaitOutcome::TimedOut);
}

#[test]
fn expiring_replaced_waiter_keeps_replacement() {
    let mut e = Engine::new();
    let w1 = e.begin_probe(device(), 0).unwrap();
    let w2 = e.begin_probe(device(), 5_000).unwrap();
    assert!(!e.expire_probe(&w1));
    match e.handle_status(TOPIC, &event("PONG", 11), 11_000) {
        Ok((_, StatusEffect::ProbeAck { completed })) => assert_eq!(completed, Some(w2.ticket)),
        _ => panic!("expected a probe acknowledgment"),
    }
}

#[test]
fn duplicate_ack_resolves_once() {
    let mut e = Engine::new();
    let w = e.begin_config_apply(device(), 0).unwrap();
    let first = e.handle_status(TOPIC, &event("CONFIG_UPDATED", 1), 1_000);
    let second = e.handle_status(TOPIC, &event("CONFIG_UPDATED", 1), 1_100);
    match (first, second) {
        (
            Ok((_, StatusEffect::ConfigAck { completed: a })),
            Ok((_, StatusEffect::ConfigAck { completed: b })),
        ) => {
            assert_eq!(a, Some(w.ticket));
            assert_eq!(b, None);
        }
        _ => panic!("expected configuration acknowledgments"),
    }
}

#[test]
fn config_ack_does_not_resolve_probe() {
    let mut e = Engine::new();
    let p = e.begin_probe(device(), 0).unwrap();
    let _ = e.handle_status(TOPIC, &event("CONFIG_UPDATED", 1), 1_000);
    let _ = e.handle_status(TOPIC, &lock_report("LOCKED", "remote", 1), 1_000);
    match e.handle_status(TOPIC, &event("PONG", 2), 2_000) {
        Ok((_, StatusEffect::ProbeAck { completed })) => assert_eq!(completed, Some(p.ticket)),
        _ => panic!("expected a probe acknowledgment"),
    }
}

fn log_actor(e: &mut Engine, now: u64) -> Option<String> {
    match e.handle_status(TOPIC, &lock_report("LOCKED", "remote", now / 1000), now) {
        Ok((_, StatusEffect::LockTransition(entry))) => {
            assert_eq!(entry.direction, LockState::Locked);
            assert_eq!(entry.reason, "remote");
            assert_eq!(entry.timestamp_s, now / 1000);
            entry.actor
        }
        _ => panic!("expected a lock transition"),
    }
}

#[test]
fn scenario_c_transition_within_window_is_attributed() {
    let mut e = Engine::new();
    e.record_command(device(), "user-u".to_string(), 0);
    assert_eq!(log_actor(&mut e, 2_000), Some("user-u".to_string()));
    // consumed: a second report is not attributed
    assert_eq!(log_actor(&mut e, 2_500), None);
}

#[test]
fn scenario_d_transition_after_window_has_no_actor() {
    let mut e = Engine::new();
    e.record_command(device(), "user-u".to_string(), 0);
    assert_eq!(log_actor(&mut e, 6_000), None);
}

#[test]
fn transition_without_command_has_no_actor() {
    let mut e = Engine::new();
    assert_eq!(log_actor(&mut e, 1_000), None);
}

#[test]
fn scenario_e_lockdown_debounce() {
    let mut e = Engine::new();
    let _ = e.handle_status(TOPIC, &heartbeat(1, None), 0);
    match e.handle_status(TOPIC, &event("LOCKING_DOWN", 0), 100) {
        Ok((_, StatusEffect::LockdownEntered { known_device })) => assert!(known_device),
        _ => panic!("expected lockdown"),
    }
    assert_eq!(e.device(device()).unwrap().lockdown_at_s, Some(0));
    match e.handle_status(TOPIC, &heartbeat(2, None), 9_500) {
        Ok((_, StatusEffect::Heartbeat { lockdown_cleared })) => assert!(!lockdown_cleared),
        _ => panic!("expected a heartbeat"),
    }
    assert_eq!(e.device(device()).unwrap().lockdown_at_s, Some(0));
    match e.handle_status(TOPIC, &heartbeat(3, None), 10_100) {
        Ok((_, StatusEffect::Heartbeat { lockdown_cleared })) => assert!(lockdown_cleared),
        _ => panic!("expected a heartbeat"),
    }
    assert_eq!(e.device(device()).unwrap().lockdown_at_s, None);
}

#[test]
fn lockdown_boundary_milliseconds() {
    for (now, cleared) in [(9_999u64, false), (10_000u64, true)] {
        let mut e = Engine::new();
        let _ = e.handle_status(TOPIC, &heartbeat(1, None), 0);
        let _ = e.handle_status(TOPIC, &event("LOCKING_DOWN", 0), 0);
        let _ = e.handle_status(TOPIC, &heartbeat(2, None), now);
        assert_eq!(e.device(device()).unwrap().lockdown_at_s.is_none(), cleared);
    }
}

#[test]
fn heartbeat_mirrors_report_and_is_idempotent() {
    let mut e = Engine::new();
    let _ = e.handle_status(TOPIC, &heartbeat(4242, Some("LOCKED")), 77);
    let rec = e.device(device()).unwrap();
    assert_eq!(rec.last_heard_ms, 77);
    assert_eq!(rec.uptime_ms, 4242);
    assert_eq!(rec.owner, "owner-1");
    assert_eq!(rec.config.wifi_ssid, "home");
    assert_eq!(rec.config.lock_timeout_ms, 10000);
    assert_eq!(rec.lock_state, LockState::Locked);
    let _ = e.handle_status(TOPIC, &heartbeat(4242, Some("LOCKED")), 77);
    let rec = e.device(device()).unwrap();
    assert_eq!(rec.last_heard_ms, 77);
    assert_eq!(rec.uptime_ms, 4242);
    assert_eq!(rec.lock_state, LockState::Locked);
    assert_eq!(rec.lockdown_at_s, None);
}

#[test]
fn heartbeat_without_lock_state_is_unknown() {
    let mut e = Engine::new();
    let _ = e.handle_status(TOPIC, &heartbeat(1, None), 5);
    assert_eq!(e.device(device()).unwrap().lock_state, LockState::Unknown);
}

#[test]
fn lockdown_event_keeps_lock_state() {
    let mut e = Engine::new();
    let _ = e.handle_status(TOPIC, &heartbeat(1, Some("UNLOCKED")), 0);
    let _ = e.handle_status(TOPIC, &event("LOCKING_DOWN", 7), 1);
    let rec = e.device(device()).unwrap();
    assert_eq!(rec.lock_state, LockState::Unlocked);
    assert_eq!(rec.lockdown_at_s, Some(7));
}

#[test]
fn lock_transition_updates_lock_state() {
    let mut e = Engine::new();
    let _ = e.handle_status(TOPIC, &heartbeat(1, Some("LOCKED")), 0);
    let _ = e.handle_status(TOPIC, &lock_report("UNLOCKED", "button", 1), 1_000);
    assert_eq!(e.device(device()).unwrap().lock_state, LockState::Unlocked);
}

#[test]
fn lockdown_for_unknown_device_changes_nothing() {
    let mut e = Engine::new();
    match e.handle_status(TOPIC, &event("LOCKING_DOWN", 0), 0) {
        Ok((_, StatusEffect::LockdownEntered { known_device })) => assert!(!known_device),
        _ => panic!("expected lockdown"),
    }
    assert!(e.device(device()).is_none());
}

#[test]
fn undecodable_payload_is_absorbed() {
    let mut e = Engine::new();
    match e.handle_status(TOPIC, &[0xff, 0x00], 0) {
        Ok((_, StatusEffect::Undecodable)) => {}
        _ => panic!("expected a decode failure"),
    }
    let only_partial = encode(vec![("event", text("PONG"))]);
    match e.handle_status(TOPIC, &only_partial, 0) {
        Ok((_, StatusEffect::Undecodable)) => {}
        _ => panic!("expected a decode failure"),
    }
    assert!(e.device(device()).is_none());
}

#[test]
fn wrong_heartbeat_marker_is_ignored() {
    let mut e = Engine::new();
    let payload = encode(vec![
        ("heartbeat", text("HELLO")),
        ("uptime_ms", Value::Integer(1)),
        ("timestamp", Value::Integer(1)),
        ("wifi_ssid", text("w")),
        ("backend_url", text("b")),
        ("mqtt_broker_url", text("m")),
        ("mqtt_heartbeat_enable", Value::Bool(true)),
        ("mqtt_heartbeat_interval_sec", Value::Integer(1)),
        ("audio_record_timeout_sec", Value::Integer(1)),
        ("lock_timeout_ms", Value::Integer(1)),
        ("pairing_timeout_sec", Value::Integer(1)),
        ("user_id", text("u")),
        ("voice_detection_enable", Value::Bool(true)),
        ("vad_rms_threshold", Value::Integer(1)),
    ]);
    match e.handle_status(TOPIC, &payload, 0) {
        Ok((_, StatusEffect::NotHeartbeat)) => {}
        _ => panic!("expected an ignored heartbeat"),
    }
    assert!(e.device(device()).is_none());
}

#[test]
fn unknown_event_kind_changes_nothing() {
    let mut e = Engine::new();
    let w = e.begin_probe(device(), 0).unwrap();
    match e.handle_status(TOPIC, &event("ALARM", 1), 1_000) {
        Ok((_, StatusEffect::UnknownEvent)) => {}
        _ => panic!("expected an unknown event"),
    }
    match e.handle_status(TOPIC, &event("PONG", 1), 1_000) {
        Ok((_, StatusEffect::ProbeAck { completed })) => assert_eq!(completed, Some(w.ticket)),
        _ => panic!("expected a probe acknowledgment"),
    }
}

#[test]
fn topics_other_than_status_are_rejected() {
    let mut e = Engine::new();
    let ctl = "lockwise/123e4567-e89b-12d3-a456-426614174000/control";
    assert!(matches!(e.handle_status(ctl, &event("PONG", 1), 0), Err(TopicError::NotStatusTopic)));
    assert!(matches!(
        e.handle_status("lockwise/status", &event("PONG", 1), 0),
        Err(TopicError::NotStatusTopic)
    ));
    assert!(matches!(
        e.handle_status("lockwise/xyz/status", &event("PONG", 1), 0),
        Err(TopicError::BadDeviceId)
    ));
}
