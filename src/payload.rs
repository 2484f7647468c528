//! Structural classification of the payloads that devices publish on their
//! status topics.
//!
//! A payload is a CBOR map. It is a heartbeat when the heartbeat fields are all
//! present and well typed; failing that, a transient event when the event
//! fields are; failing that, a lock-transition report. Fields that no shape
//! names are ignored, so a payload that carries the fields of two shapes takes
//! the earlier one.
use serde_cbor::Value;
use vstd::prelude::*;

verus! {

/// A CBOR data item, as far as the classifier reads it.
pub enum CborItem {
    Null,
    Bool(bool),
    Integer(i128),
    Text(String),
    /// Floats, byte strings, arrays, maps and tagged items.
    Other,
}

/// One key/value pair of a CBOR map.
pub struct MapEntry {
    pub key: CborItem,
    pub value: CborItem,
}

/// The entries of the top-level CBOR map in `payload`, or `None` when the
/// bytes are not one well-formed CBOR item, or that item is not a map.
pub uninterp spec fn cbor_top_map(payload: Seq<u8>) -> Option<Seq<MapEntry>>;

/// Relies on `serde_cbor::from_slice::<serde_cbor::Value>`: decodes the whole
/// slice as one CBOR item; each map entry is converted item by item.
#[verifier::external_body]
fn decode_top_map(payload: &[u8]) -> (r: Option<Vec<MapEntry>>)
    ensures
        match r {
            Some(v) => cbor_top_map(payload@) == Some(v@),
            None => cbor_top_map(payload@) is None,
        },
{
    match serde_cbor::from_slice::<Value>(payload) {
        Ok(Value::Map(m)) => {
            let item = |v: Value| match v {
                Value::Null => CborItem::Null,
                Value::Bool(b) => CborItem::Bool(b),
                Value::Integer(i) => CborItem::Integer(i),
                Value::Text(s) => CborItem::Text(s),
                _ => CborItem::Other,
            };
            Some(m.into_iter().map(|(k, v)| MapEntry { key: item(k), value: item(v) }).collect())
        },
        _ => None,
    }
}

/// Device settings that a heartbeat reports and the server mirrors.
pub struct DeviceConfig {
    pub wifi_ssid: String,
    pub backend_url: String,
    pub mqtt_broker_url: String,
    pub mqtt_heartbeat_enable: bool,
    pub mqtt_heartbeat_interval_sec: i32,
    pub audio_record_timeout_sec: i32,
    pub lock_timeout_ms: i32,
    pub pairing_timeout_sec: i32,
    pub voice_detection_enable: bool,
    pub vad_rms_threshold: i32,
}

/// A periodic report of a device's full state.
pub struct HeartbeatMessage {
    /// The marker field; only `"HEARTBEAT"` makes the message a heartbeat.
    pub heartbeat: String,
    pub uptime_ms: u64,
    /// Device clock, seconds.
    pub timestamp: u64,
    pub user_id: String,
    pub lock_state: Option<String>,
    pub config: DeviceConfig,
}

/// A one-off occurrence: `PONG`, `CONFIG_UPDATED` or `LOCKING_DOWN`.
pub struct EventMessage {
    pub event: String,
    pub uptime_ms: u64,
    /// Device clock, seconds.
    pub timestamp: u64,
}

/// A change of the physical lock, reported by the device.
pub struct LockStatusMessage {
    /// `"LOCKED"` or anything else, which means unlocked.
    pub lock: String,
    pub reason: String,
    pub uptime_ms: u64,
    /// Device clock, seconds.
    pub timestamp: u64,
}

/// The shape that a payload matched first.
pub enum Classified {
    Heartbeat(HeartbeatMessage),
    Event(EventMessage),
    LockStatus(LockStatusMessage),
    /// No shape matched: a decode failure, absorbed by the caller.
    Unrecognized,
}

pub open spec fn key_names(k: CborItem, name: Seq<char>) -> bool {
    match k {
        CborItem::Text(s) => s@ == name,
        _ => false,
    }
}

/// The value under the first text key equal to `name`.
pub open spec fn lookup(e: Seq<MapEntry>, name: Seq<char>) -> Option<CborItem>
    decreases e.len(),
{
    if e.len() == 0 {
        None
    } else if key_names(e[0].key, name) {
        Some(e[0].value)
    } else {
        lookup(e.drop_first(), name)
    }
}

pub open spec fn as_text(v: Option<CborItem>) -> Option<String> {
    match v {
        Some(CborItem::Text(s)) => Some(s),
        _ => None,
    }
}

/// An optional text field: absent or null is `None`.
pub open spec fn as_opt_text(v: Option<CborItem>) -> Option<Option<String>> {
    match v {
        None => Some(None),
        Some(CborItem::Null) => Some(None),
        Some(CborItem::Text(s)) => Some(Some(s)),
        _ => None,
    }
}

pub open spec fn as_bool(v: Option<CborItem>) -> Option<bool> {
    match v {
        Some(CborItem::Bool(b)) => Some(b),
        _ => None,
    }
}

pub open spec fn as_u64(v: Option<CborItem>) -> Option<u64> {
    match v {
        Some(CborItem::Integer(i)) => if 0 <= i <= u64::MAX {
            Some(i as u64)
        } else {
            None
        },
        _ => None,
    }
}

pub open spec fn as_i32(v: Option<CborItem>) -> Option<i32> {
    match v {
        Some(CborItem::Integer(i)) => if i32::MIN <= i <= i32::MAX {
            Some(i as i32)
        } else {
            None
        },
        _ => None,
    }
}

/// The heartbeat reading of `e`, when every heartbeat field is present and well typed.
pub open spec fn heartbeat_shape(e: Seq<MapEntry>) -> Option<HeartbeatMessage> {
    let heartbeat = as_text(lookup(e, "heartbeat"@));
    let uptime_ms = as_u64(lookup(e, "uptime_ms"@));
    let timestamp = as_u64(lookup(e, "timestamp"@));
    let wifi_ssid = as_text(lookup(e, "wifi_ssid"@));
    let backend_url = as_text(lookup(e, "backend_url"@));
    let mqtt_broker_url = as_text(lookup(e, "mqtt_broker_url"@));
    let mqtt_heartbeat_enable = as_bool(lookup(e, "mqtt_heartbeat_enable"@));
    let mqtt_heartbeat_interval_sec = as_i32(lookup(e, "mqtt_heartbeat_interval_sec"@));
    let audio_record_timeout_sec = as_i32(lookup(e, "audio_record_timeout_sec"@));
    let lock_timeout_ms = as_i32(lookup(e, "lock_timeout_ms"@));
    let pairing_timeout_sec = as_i32(lookup(e, "pairing_timeout_sec"@));
    let user_id = as_text(lookup(e, "user_id"@));
    let lock_state = as_opt_text(lookup(e, "lock_state"@));
    let voice_detection_enable = as_bool(lookup(e, "voice_detection_enable"@));
    let vad_rms_threshold = as_i32(lookup(e, "vad_rms_threshold"@));
    if heartbeat is Some && uptime_ms is Some && timestamp is Some && wifi_ssid is Some
        && backend_url is Some && mqtt_broker_url is Some && mqtt_heartbeat_enable is Some
        && mqtt_heartbeat_interval_sec is Some && audio_record_timeout_sec is Some
        && lock_timeout_ms is Some && pairing_timeout_sec is Some && user_id is Some
        && lock_state is Some && voice_detection_enable is Some && vad_rms_threshold is Some {
        Some(
            HeartbeatMessage {
                heartbeat: heartbeat.unwrap(),
                uptime_ms: uptime_ms.unwrap(),
                timestamp: timestamp.unwrap(),
                user_id: user_id.unwrap(),
                lock_state: lock_state.unwrap(),
                config: DeviceConfig {
                    wifi_ssid: wifi_ssid.unwrap(),
                    backend_url: backend_url.unwrap(),
                    mqtt_broker_url: mqtt_broker_url.unwrap(),
                    mqtt_heartbeat_enable: mqtt_heartbeat_enable.unwrap(),
                    mqtt_heartbeat_interval_sec: mqtt_heartbeat_interval_sec.unwrap(),
                    audio_record_timeout_sec: audio_record_timeout_sec.unwrap(),
                    lock_timeout_ms: lock_timeout_ms.unwrap(),
                    pairing_timeout_sec: pairing_timeout_sec.unwrap(),
                    voice_detection_enable: voice_detection_enable.unwrap(),
                    vad_rms_threshold: vad_rms_threshold.unwrap(),
                },
            },
        )
    } else {
        None
    }
}

/// The transient-event reading of `e`.
pub open spec fn event_shape(e: Seq<MapEntry>) -> Option<EventMessage> {
    let event = as_text(lookup(e, "event"@));
    let uptime_ms = as_u64(lookup(e, "uptime_ms"@));
    let timestamp = as_u64(lookup(e, "timestamp"@));
    if event is Some && uptime_ms is Some && timestamp is Some {
        Some(
            EventMessage {
                event: event.unwrap(),
                uptime_ms: uptime_ms.unwrap(),
                timestamp: timestamp.unwrap(),
            },
        )
    } else {
        None
    }
}

/// The lock-transition reading of `e`.
pub open spec fn lock_status_shape(e: Seq<MapEntry>) -> Option<LockStatusMessage> {
    let lock = as_text(lookup(e, "lock"@));
    let reason = as_text(lookup(e, "reason"@));
    let uptime_ms = as_u64(lookup(e, "uptime_ms"@));
    let timestamp = as_u64(lookup(e, "timestamp"@));
    if lock is Some && reason is Some && uptime_ms is Some && timestamp is Some {
        Some(
            LockStatusMessage {
                lock: lock.unwrap(),
                reason: reason.unwrap(),
                uptime_ms: uptime_ms.unwrap(),
                timestamp: timestamp.unwrap(),
            },
        )
    } else {
        None
    }
}

/// The first shape, in priority order, that the entries match.
pub open spec fn classify_spec(e: Seq<MapEntry>) -> Classified {
    if heartbeat_shape(e) is Some {
        Classified::Heartbeat(heartbeat_shape(e).unwrap())
    } else if event_shape(e) is Some {
        Classified::Event(event_shape(e).unwrap())
    } else if lock_status_shape(e) is Some {
        Classified::LockStatus(lock_status_shape(e).unwrap())
    } else {
        Classified::Unrecognized
    }
}

/// The classification of raw payload bytes.
pub open spec fn classify_payload_spec(payload: Seq<u8>) -> Classified {
    match cbor_top_map(payload) {
        Some(e) => classify_spec(e),
        None => Classified::Unrecognized,
    }
}

fn key_is(k: &CborItem, name: &str) -> (r: bool)
    ensures
        r == key_names(*k, name@),
{
    match k {
        CborItem::Text(s) => *s == name.to_owned(),
        _ => false,
    }
}

/// Index of the entry that `lookup` reads.
fn find(e: &Vec<MapEntry>, name: &str) -> (r: Option<usize>)
    ensures
        match r {
            Some(i) => i < e@.len() && lookup(e@, name@) == Some(e@[i as int].value),
            None => lookup(e@, name@) is None,
        },
{
    let mut i: usize = 0;
    assert(e@.subrange(0, e@.len() as int) =~= e@);
    while i < e.len()
        invariant
            i <= e@.len(),
            lookup(e@, name@) == lookup(e@.subrange(i as int, e@.len() as int), name@),
        decreases e@.len() - i,
    {
        let ghost rest = e@.subrange(i as int, e@.len() as int);
        assert(rest[0] == e@[i as int]);
        if key_is(&e[i].key, name) {
            return Some(i);
        }
        assert(rest.drop_first() =~= e@.subrange(i + 1, e@.len() as int));
        i += 1;
    }
    None
}

fn text_field(e: &Vec<MapEntry>, name: &str) -> (r: Option<String>)
    ensures
        r == as_text(lookup(e@, name@)),
{
    match find(e, name) {
        Some(i) => match &e[i].value {
            CborItem::Text(s) => Some(s.clone()),
            _ => None,
        },
        None => None,
    }
}

fn opt_text_field(e: &Vec<MapEntry>, name: &str) -> (r: Option<Option<String>>)
    ensures
        r == as_opt_text(lookup(e@, name@)),
{
    match find(e, name) {
        Some(i) => match &e[i].value {
            CborItem::Null => Some(None),
            CborItem::Text(s) => Some(Some(s.clone())),
            _ => None,
        },
        None => Some(None),
    }
}

fn bool_field(e: &Vec<MapEntry>, name: &str) -> (r: Option<bool>)
    ensures
        r == as_bool(lookup(e@, name@)),
{
    match find(e, name) {
        Some(i) => match &e[i].value {
            CborItem::Bool(b) => Some(*b),
            _ => None,
        },
        None => None,
    }
}

fn u64_field(e: &Vec<MapEntry>, name: &str) -> (r: Option<u64>)
    ensures
        r == as_u64(lookup(e@, name@)),
{
    match find(e, name) {
        Some(i) => match &e[i].value {
            CborItem::Integer(v) => if 0 <= *v && *v <= u64::MAX as i128 {
                Some(*v as u64)
            } else {
                None
            },
            _ => None,
        },
        None => None,
    }
}

fn i32_field(e: &Vec<MapEntry>, name: &str) -> (r: Option<i32>)
    ensures
        r == as_i32(lookup(e@, name@)),
{
    match find(e, name) {
        Some(i) => match &e[i].value {
            CborItem::Integer(v) => if i32::MIN as i128 <= *v && *v <= i32::MAX as i128 {
                Some(*v as i32)
            } else {
                None
            },
            _ => None,
        },
        None => None,
    }
}

/// Reads the heartbeat shape.
pub fn heartbeat_fields(e: &Vec<MapEntry>) -> (r: Option<HeartbeatMessage>)
    ensures
        r == heartbeat_shape(e@),
{
    let heartbeat = match text_field(e, "heartbeat") { Some(v) => v, None => return None };
    let uptime_ms = match u64_field(e, "uptime_ms") { Some(v) => v, None => return None };
    let timestamp = match u64_field(e, "timestamp") { Some(v) => v, None => return None };
    let wifi_ssid = match text_field(e, "wifi_ssid") { Some(v) => v, None => return None };
    let backend_url = match text_field(e, "backend_url") { Some(v) => v, None => return None };
    let mqtt_broker_url = match text_field(e, "mqtt_broker_url") {
        Some(v) => v,
        None => return None,
    };
    let mqtt_heartbeat_enable = match bool_field(e, "mqtt_heartbeat_enable") {
        Some(v) => v,
        None => return None,
    };
    let mqtt_heartbeat_interval_sec = match i32_field(e, "mqtt_heartbeat_interval_sec") {
        Some(v) => v,
        None => return None,
    };
    let audio_record_timeout_sec = match i32_field(e, "audio_record_timeout_sec") {
        Some(v) => v,
        None => return None,
    };
    let lock_timeout_ms = match i32_field(e, "lock_timeout_ms") {
        Some(v) => v,
        None => return None,
    };
    let pairing_timeout_sec = match i32_field(e, "pairing_timeout_sec") {
        Some(v) => v,
        None => return None,
    };
    let user_id = match text_field(e, "user_id") { Some(v) => v, None => return None };
    let lock_state = match opt_text_field(e, "lock_state") { Some(v) => v, None => return None };
    let voice_detection_enable = match bool_field(e, "voice_detection_enable") {
        Some(v) => v,
        None => return None,
    };
    let vad_rms_threshold = match i32_field(e, "vad_rms_threshold") {
        Some(v) => v,
        None => return None,
    };
    Some(
        HeartbeatMessage {
            heartbeat,
            uptime_ms,
            timestamp,
            user_id,
            lock_state,
            config: DeviceConfig {
                wifi_ssid,
                backend_url,
                mqtt_broker_url,
                mqtt_heartbeat_enable,
                mqtt_heartbeat_interval_sec,
                audio_record_timeout_sec,
                lock_timeout_ms,
                pairing_timeout_sec,
                voice_detection_enable,
                vad_rms_threshold,
            },
        },
    )
}

/// Reads the transient-event shape.
pub fn event_fields(e: &Vec<MapEntry>) -> (r: Option<EventMessage>)
    ensures
        r == event_shape(e@),
{
    let event = match text_field(e, "event") { Some(v) => v, None => return None };
    let uptime_ms = match u64_field(e, "uptime_ms") { Some(v) => v, None => return None };
    let timestamp = match u64_field(e, "timestamp") { Some(v) => v, None => return None };
    Some(EventMessage { event, uptime_ms, timestamp })
}

/// Reads the lock-transition shape.
pub fn lock_status_fields(e: &Vec<MapEntry>) -> (r: Option<LockStatusMessage>)
    ensures
        r == lock_status_shape(e@),
{
    let lock = match text_field(e, "lock") { Some(v) => v, None => return None };
    let reason = match text_field(e, "reason") { Some(v) => v, None => return None };
    let uptime_ms = match u64_field(e, "uptime_ms") { Some(v) => v, None => return None };
    let timestamp = match u64_field(e, "timestamp") { Some(v) => v, None => return None };
    Some(LockStatusMessage { lock, reason, uptime_ms, timestamp })
}

/// Classifies decoded map entries by the first shape, in priority order, that
/// they match.
pub fn classify_entries(e: &Vec<MapEntry>) -> (r: Classified)
    ensures
        r == classify_spec(e@),
{
    if let Some(h) = heartbeat_fields(e) {
        return Classified::Heartbeat(h);
    }
    if let Some(ev) = event_fields(e) {
        return Classified::Event(ev);
    }
    if let Some(l) = lock_status_fields(e) {
        return Classified::LockStatus(l);
    }
    Classified::Unrecognized
}

/// Decodes and classifies a status payload.
pub fn classify(payload: &[u8]) -> (r: Classified)
    ensures
        r == classify_payload_spec(payload@),
{
    match decode_top_map(payload) {
        Some(e) => classify_entries(&e),
        None => Classified::Unrecognized,
    }
}

} // verus!
