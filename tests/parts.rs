use lockwise::attribution::AttributionWindow;
use lockwise::commands::{
    check_config_item, config_payload, control_payload, control_topic, first_apply_step,
    next_apply_step, plan_config_update, ApplyEvent, ApplyStep, CommandError, ConfigKey,
};
use lockwise::devices::{lock_state_of, lockdown_ends, LockState};
use lockwise::payload::{classify, classify_entries, CborItem, Classified, MapEntry};
use lockwise::registry::{wait_status, WaitOutcome, WaiterTable};
use lockwise::requests::{calculate_expiry_timestamp, invite_duration_days, ConfigItem, Token};
use serde_cbor::Value;
use std::collections::BTreeMap;

fn entry(k: &str, v: CborItem) -> MapEntry {
    MapEntry { key: CborItem::Text(k.to_string()), value: v }
}

fn t(s: &str) -> CborItem {
    CborItem::Text(s.to_string())
}

#[test]
fn payload_with_event_and_lock_fields_classifies_as_event() {
    // satisfies both the transient-event and the lock-transition shapes
    let e = vec![
        entry("event", t("PONG")),
        entry("lock", t("LOCKED")),
        entry("reason", t("remote")),
        entry("uptime_ms", CborItem::Integer(5)),
        entry("timestamp", CborItem::Integer(9)),
    ];
    match classify_entries(&e) {
        Classified::Event(ev) => {
            assert_eq!(ev.event, "PONG");
            assert_eq!(ev.timestamp, 9);
        }
        _ => panic!("event shape must win"),
    }
}

#[test]
fn lock_shape_needs_every_field() {
    let e = vec![
        entry("lock", t("LOCKED")),
        entry("reason", t("remote")),
        entry("timestamp", CborItem::Integer(9)),
    ];
    assert!(matches!(classify_entries(&e), Classified::Unrecognized));
    let mut full = e;
    full.push(entry("uptime_ms", CborItem::Integer(1)));
    match classify_entries(&full) {
        Classified::LockStatus(l) => {
            assert_eq!(l.lock, "LOCKED");
            assert_eq!(l.reason, "remote");
            assert_eq!(l.uptime_ms, 1);
        }
        _ => panic!("expected a lock transition"),
    }
}

#[test]
fn mistyped_fields_do_not_match() {
    let negative = vec![
        entry("event", t("PONG")),
        entry("uptime_ms", CborItem::Integer(-1)),
        entry("timestamp", CborItem::Integer(9)),
    ];
    assert!(matches!(classify_entries(&negative), Classified::Unrecognized));
    let text_time = vec![
        entry("event", t("PONG")),
        entry("uptime_ms", CborItem::Integer(1)),
        entry("timestamp", t("9")),
    ];
    assert!(matches!(classify_entries(&text_time), Classified::Unrecognized));
    let non_text_key = vec![
        MapEntry { key: CborItem::Integer(0), value: t("PONG") },
        entry("uptime_ms", CborItem::Integer(1)),
        entry("timestamp", CborItem::Integer(9)),
    ];
    assert!(matches!(classify_entries(&non_text_key), Classified::Unrecognized));
}

#[test]
fn classify_decodes_cbor_bytes() {
    let mut m = BTreeMap::new();
    m.insert(Value::Text("event".into()), Value::Text("CONFIG_UPDATED".into()));
    m.insert(Value::Text("uptime_ms".into()), Value::Integer(3));
    m.insert(Value::Text("timestamp".into()), Value::Integer(4));
    m.insert(Value::Text("extra".into()), Value::Float(1.5));
    let bytes = serde_cbor::to_vec(&Value::Map(m)).unwrap();
    match classify(&bytes) {
        Classified::Event(ev) => {
            assert_eq!(ev.event, "CONFIG_UPDATED");
            assert_eq!(ev.uptime_ms, 3);
            assert_eq!(ev.timestamp, 4);
        }
        _ => panic!("expected an event"),
    }
    let not_map = serde_cbor::to_vec(&Value::Array(vec![Value::Integer(1)])).unwrap();
    assert!(matches!(classify(&not_map), Classified::Unrecognized));
    assert!(matches!(classify(&[]), Classified::Unrecognized));
}

#[test]
fn waiter_table_register_resolve_time_out() {
    let mut table = WaiterTable::new();
    let w = table.register(7, 1_000);
    assert_eq!(w.deadline_ms, 11_000);
    assert_eq!(table.next_ticket(), 1);
    assert_eq!(table.resolve(8, 2_000), None);
    assert_eq!(table.resolve(7, 2_000), Some(w.ticket));
    assert_eq!(table.resolve(7, 2_000), None);
    let w2 = table.register(7, 3_000);
    assert!(table.time_out(&w2));
    assert!(!table.time_out(&w2));
    assert_eq!(wait_status(&w2, None, 12_999), WaitOutcome::Waiting);
    assert_eq!(wait_status(&w2, None, 13_000), WaitOutcome::TimedOut);
    assert_eq!(wait_status(&w2, Some(w.ticket), 4_000), WaitOutcome::Waiting);
}

#[test]
fn take_if_recent_single_consumption() {
    let mut a = AttributionWindow::new();
    a.record(1, "alice".to_string(), 10_000);
    assert_eq!(a.take_if_recent(1, 14_999), Some("alice".to_string()));
    assert_eq!(a.take_if_recent(1, 14_999), None);
}

#[test]
fn take_if_recent_window_edge_and_absent() {
    let mut a = AttributionWindow::new();
    assert_eq!(a.take_if_recent(1, 0), None);
    a.record(1, "alice".to_string(), 10_000);
    assert_eq!(a.take_if_recent(1, 15_000), None);
    // the stale entry was removed
    assert_eq!(a.take_if_recent(1, 10_000), None);
    a.record(1, "alice".to_string(), 10_000);
    a.record(1, "bob".to_string(), 11_000);
    assert_eq!(a.take_if_recent(1, 12_000), Some("bob".to_string()));
}

#[test]
fn lock_state_and_lockdown_rules() {
    assert_eq!(lock_state_of(&Some("LOCKED".to_string())), LockState::Locked);
    assert_eq!(lock_state_of(&Some("UNLOCKED".to_string())), LockState::Unlocked);
    assert_eq!(lock_state_of(&Some("JAMMED".to_string())), LockState::Unknown);
    assert_eq!(lock_state_of(&None), LockState::Unknown);
    assert!(!lockdown_ends(Some(5), 14_999));
    assert!(lockdown_ends(Some(5), 15_000));
    assert!(!lockdown_ends(None, u64::MAX));
    assert!(!lockdown_ends(Some(u64::MAX), u64::MAX));
}

fn item(k: &str, v: &str) -> ConfigItem {
    ConfigItem { key: k.to_string(), value: v.to_string() }
}

#[test]
fn config_items_are_checked() {
    assert_eq!(check_config_item(&item("wifi_ssid", "x")), Some(ConfigKey::WifiSsid));
    assert_eq!(check_config_item(&item("wifi_ssid", "")), None);
    assert_eq!(check_config_item(&item("wifi_pass", "")), Some(ConfigKey::WifiPass));
    assert_eq!(check_config_item(&item("audio_timeout", "3")), Some(ConfigKey::AudioTimeout));
    assert_eq!(check_config_item(&item("audio_timeout", "61")), None);
    assert_eq!(check_config_item(&item("audio_timeout", "abc")), None);
    assert_eq!(check_config_item(&item("lock_timeout", "300000")), Some(ConfigKey::LockTimeout));
    assert_eq!(check_config_item(&item("lock_timeout", "4999")), None);
    assert_eq!(check_config_item(&item("pairing_timeout", "600")), Some(ConfigKey::PairingTimeout));
    assert_eq!(check_config_item(&item("voice_detection_enable", "2")), None);
    assert_eq!(check_config_item(&item("voice_invite_enable", "1")), Some(ConfigKey::VoiceInviteEnable));
    assert_eq!(check_config_item(&item("voice_threshold", "0.5")), Some(ConfigKey::VoiceThreshold));
    assert_eq!(check_config_item(&item("colour", "red")), None);
    assert_eq!(check_config_item(&item("audio_timeout", "+5")), Some(ConfigKey::AudioTimeout));
    assert_eq!(check_config_item(&item("voice_detection_enable", "-0")), Some(ConfigKey::VoiceDetectionEnable));
    assert_eq!(check_config_item(&item("audio_timeout", " 5")), None);
    assert_eq!(check_config_item(&item("audio_timeout", "-")), None);
    assert_eq!(check_config_item(&item("lock_timeout", "99999999999")), None);
}

#[test]
fn config_plan_splits_in_order() {
    let items = vec![
        item("wifi_ssid", "net"),
        item("voice_threshold", "0.4"),
        item("lock_timeout", "6000"),
        item("voice_invite_enable", "0"),
    ];
    let plan = plan_config_update(&items).unwrap();
    assert_eq!(plan.backend, vec![1, 3]);
    assert_eq!(plan.device, vec![0, 2]);
    assert_eq!(plan.keys[2], ConfigKey::LockTimeout);
    let bad = vec![item("wifi_ssid", "net"), item("audio_timeout", "1"), item("x", "y")];
    assert_eq!(plan_config_update(&bad).err(), Some(1));
}

#[test]
fn apply_steps_stop_at_first_failure() {
    assert_eq!(first_apply_step(0), ApplyStep::Done);
    assert_eq!(first_apply_step(2), ApplyStep::Publish(0));
    assert_eq!(next_apply_step(0, 2, ApplyEvent::Acknowledged), ApplyStep::Publish(1));
    assert_eq!(next_apply_step(1, 2, ApplyEvent::Acknowledged), ApplyStep::Done);
    assert_eq!(next_apply_step(0, 2, ApplyEvent::TimedOut), ApplyStep::Abort(CommandError::Timeout));
    assert_eq!(next_apply_step(0, 2, ApplyEvent::Failed), ApplyStep::Abort(CommandError::Failed));
}

#[test]
fn command_encoding() {
    assert_eq!(
        control_topic(0x123e4567_e89b_12d3_a456_426614174000u128),
        "lockwise/123e4567-e89b-12d3-a456-426614174000/control"
    );
    assert_eq!(control_topic(1), "lockwise/00000000-0000-0000-0000-000000000001/control");
    assert_eq!(
        control_topic(u128::MAX),
        "lockwise/ffffffff-ffff-ffff-ffff-ffffffffffff/control"
    );
    let bytes = control_payload("PING");
    let v: Value = serde_cbor::from_slice(&bytes).unwrap();
    let mut m = BTreeMap::new();
    m.insert(Value::Text("command".into()), Value::Text("PING".into()));
    assert_eq!(v, Value::Map(m));
    let bytes = config_payload("wifi_ssid", "net");
    let v: Value = serde_cbor::from_slice(&bytes).unwrap();
    let mut m = BTreeMap::new();
    m.insert(Value::Text("command".into()), Value::Text("update_config".into()));
    m.insert(Value::Text("key".into()), Value::Text("wifi_ssid".into()));
    m.insert(Value::Text("value".into()), Value::Text("net".into()));
    assert_eq!(v, Value::Map(m));
}

#[test]
fn bearer_token_is_read() {
    assert_eq!(Token::from_authorization(Some("Bearer abc.def")).map(|t| t.0), Some("abc.def".to_string()));
    assert_eq!(Token::from_authorization(Some("Bearer ")).map(|t| t.0), Some(String::new()));
    assert!(Token::from_authorization(Some("Basic abc")).is_none());
    assert!(Token::from_authorization(Some("Bear")).is_none());
    assert!(Token::from_authorization(None).is_none());
}

#[test]
fn invite_expiry() {
    assert_eq!(invite_duration_days("2_dias"), 2);
    assert_eq!(invite_duration_days("permanente"), 36500);
    assert_eq!(invite_duration_days("whatever"), 7);
    assert_eq!(calculate_expiry_timestamp(1_000, "1_mes"), 1_000 + 30 * 86_400_000);
    assert_eq!(calculate_expiry_timestamp(0, "2_semanas"), 14 * 86_400_000);
}
