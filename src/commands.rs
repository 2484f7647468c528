//! Command-issuing operations: which configuration changes are accepted,
//! which go to the device, and the sequence in which a batch is applied.
//!
//! Device settings of one batch are applied one at a time: each is published
//! and its acknowledgment awaited before the next is sent, and the first
//! timeout or failure abandons the rest.
use crate::requests::ConfigItem;
use serde_cbor::Value;
use std::collections::BTreeMap;
use vstd::arithmetic::power2::pow2;
use vstd::prelude::*;
use vstd::string::StringExecFns;

verus! {

/// How a command-issuing operation can fail once authorised.
#[derive(Clone, Copy, PartialEq, Eq, Structural, Debug)]
pub enum CommandError {
    /// The request itself is malformed.
    BadRequest,
    /// No acknowledgment came within the deadline; the command may have been lost.
    Timeout,
    /// The transport could not send the command, or the wait was abandoned.
    Failed,
}

/// The configuration keys a batch may hold.
#[derive(Clone, Copy, PartialEq, Eq, Structural, Debug)]
pub enum ConfigKey {
    WifiSsid,
    WifiPass,
    AudioTimeout,
    LockTimeout,
    PairingTimeout,
    VoiceDetectionEnable,
    VoiceInviteEnable,
    VoiceThreshold,
}

pub open spec fn config_key_spec(key: Seq<char>) -> Option<ConfigKey> {
    if key == "wifi_ssid"@ {
        Some(ConfigKey::WifiSsid)
    } else if key == "wifi_pass"@ {
        Some(ConfigKey::WifiPass)
    } else if key == "audio_timeout"@ {
        Some(ConfigKey::AudioTimeout)
    } else if key == "lock_timeout"@ {
        Some(ConfigKey::LockTimeout)
    } else if key == "pairing_timeout"@ {
        Some(ConfigKey::PairingTimeout)
    } else if key == "voice_detection_enable"@ {
        Some(ConfigKey::VoiceDetectionEnable)
    } else if key == "voice_invite_enable"@ {
        Some(ConfigKey::VoiceInviteEnable)
    } else if key == "voice_threshold"@ {
        Some(ConfigKey::VoiceThreshold)
    } else {
        None
    }
}

pub fn config_key(key: &str) -> (r: Option<ConfigKey>)
    ensures
        r == config_key_spec(key@),
{
    let k = key.to_owned();
    if k == "wifi_ssid".to_owned() {
        Some(ConfigKey::WifiSsid)
    } else if k == "wifi_pass".to_owned() {
        Some(ConfigKey::WifiPass)
    } else if k == "audio_timeout".to_owned() {
        Some(ConfigKey::AudioTimeout)
    } else if k == "lock_timeout".to_owned() {
        Some(ConfigKey::LockTimeout)
    } else if k == "pairing_timeout".to_owned() {
        Some(ConfigKey::PairingTimeout)
    } else if k == "voice_detection_enable".to_owned() {
        Some(ConfigKey::VoiceDetectionEnable)
    } else if k == "voice_invite_enable".to_owned() {
        Some(ConfigKey::VoiceInviteEnable)
    } else if k == "voice_threshold".to_owned() {
        Some(ConfigKey::VoiceThreshold)
    } else {
        None
    }
}

/// Settings kept by the server alone; the others are sent to the device.
pub open spec fn is_backend_key(k: ConfigKey) -> bool {
    k == ConfigKey::VoiceThreshold || k == ConfigKey::VoiceInviteEnable
}

pub fn backend_key(k: ConfigKey) -> (r: bool)
    ensures
        r == is_backend_key(k),
{
    match k {
        ConfigKey::VoiceThreshold | ConfigKey::VoiceInviteEnable => true,
        _ => false,
    }
}

/// The inclusive range allowed for an integer setting, if the key is one.
pub open spec fn int_range(k: ConfigKey) -> Option<(i32, i32)> {
    match k {
        ConfigKey::AudioTimeout => Some((3i32, 60i32)),
        ConfigKey::LockTimeout => Some((5000i32, 300000i32)),
        ConfigKey::PairingTimeout => Some((60i32, 600i32)),
        ConfigKey::VoiceDetectionEnable => Some((0i32, 1i32)),
        ConfigKey::VoiceInviteEnable => Some((0i32, 1i32)),
        _ => None,
    }
}

pub open spec fn is_digit(c: char) -> bool {
    '0' <= c <= '9'
}

/// The value of a string of ASCII digits.
pub open spec fn digits_value(s: Seq<char>) -> int
    decreases s.len(),
{
    if s.len() == 0 {
        0
    } else {
        digits_value(s.drop_last()) * 10 + (s.last() as int - '0' as int)
    }
}

/// The integer written in `s`: an optional `+` or `-`, then one or more ASCII
/// digits and nothing else.
pub open spec fn decimal_value(s: Seq<char>) -> Option<int> {
    let signed = s.len() > 0 && (s[0] == '-' || s[0] == '+');
    let body = if signed {
        s.drop_first()
    } else {
        s
    };
    if body.len() > 0 && forall|i: int| 0 <= i < body.len() ==> is_digit(#[trigger] body[i]) {
        Some(
            if signed && s[0] == '-' {
                -digits_value(body)
            } else {
                digits_value(body)
            },
        )
    } else {
        None
    }
}

/// The `i32` written in `s`, if it fits.
pub open spec fn decimal_i32(s: Seq<char>) -> Option<i32> {
    match decimal_value(s) {
        Some(v) => if i32::MIN <= v <= i32::MAX {
            Some(v as i32)
        } else {
            None
        },
        None => None,
    }
}

/// Relies on `str::parse::<i32>` (`<i32 as FromStr>::from_str`), documented to
/// accept an optional `+` or `-` followed by digits only, and to fail on
/// anything else or on a value out of range.
#[verifier::external_body]
fn parse_i32(s: &str) -> (r: Option<i32>)
    ensures
        r == decimal_i32(s@),
{
    s.parse::<i32>().ok()
}

/// Whether a change is acceptable, apart from the decimal-fraction range of
/// `voice_threshold`, which the caller checks.
pub open spec fn item_ok(k: ConfigKey, value: Seq<char>) -> bool {
    match k {
        ConfigKey::WifiSsid => value.len() > 0,
        ConfigKey::WifiPass => true,
        ConfigKey::VoiceThreshold => true,
        _ => match (int_range(k), decimal_i32(value)) {
            (Some((lo, hi)), Some(v)) => lo <= v <= hi,
            _ => false,
        },
    }
}

/// The key of an acceptable change.
pub open spec fn check_spec(item: ConfigItem) -> Option<ConfigKey> {
    match config_key_spec(item.key@) {
        Some(k) => if item_ok(k, item.value@) {
            Some(k)
        } else {
            None
        },
        None => None,
    }
}

/// Checks one change: its key must be known and its value in the key's range.
pub fn check_config_item(item: &ConfigItem) -> (r: Option<ConfigKey>)
    ensures
        r == check_spec(*item),
{
    let k = match config_key(item.key.as_str()) {
        Some(k) => k,
        None => return None,
    };
    let ok = match k {
        ConfigKey::WifiSsid => !item.value.as_str().is_empty(),
        ConfigKey::WifiPass => true,
        ConfigKey::VoiceThreshold => true,
        ConfigKey::AudioTimeout => in_range(item.value.as_str(), 3, 60),
        ConfigKey::LockTimeout => in_range(item.value.as_str(), 5000, 300000),
        ConfigKey::PairingTimeout => in_range(item.value.as_str(), 60, 600),
        ConfigKey::VoiceDetectionEnable => in_range(item.value.as_str(), 0, 1),
        ConfigKey::VoiceInviteEnable => in_range(item.value.as_str(), 0, 1),
    };
    if ok {
        Some(k)
    } else {
        None
    }
}

fn in_range(s: &str, lo: i32, hi: i32) -> (r: bool)
    ensures
        r == match decimal_i32(s@) {
            Some(v) => lo <= v <= hi,
            None => false,
        },
{
    match parse_i32(s) {
        Some(v) => lo <= v && v <= hi,
        None => false,
    }
}

/// The indices, in order, of the first `n` changes whose keys are (or are not)
/// kept by the server.
pub open spec fn split_indices(keys: Seq<ConfigKey>, n: int, backend: bool) -> Seq<usize>
    decreases n,
{
    if n <= 0 {
        Seq::empty()
    } else if is_backend_key(keys[n - 1]) == backend {
        split_indices(keys, n - 1, backend).push((n - 1) as usize)
    } else {
        split_indices(keys, n - 1, backend)
    }
}

/// An accepted batch: the key of every change, and which changes the server
/// keeps and which are sent to the device, each in the batch's order.
pub struct ConfigPlan {
    pub keys: Vec<ConfigKey>,
    pub backend: Vec<usize>,
    pub device: Vec<usize>,
}

/// Checks a batch. `Err(i)` names the first change that is not acceptable,
/// and then nothing is applied; otherwise the plan splits the batch.
pub fn plan_config_update(items: &Vec<ConfigItem>) -> (r: Result<ConfigPlan, usize>)
    ensures
        match r {
            Ok(plan) => {
                &&& forall|i: int| 0 <= i < items@.len() ==> check_spec(#[trigger] items@[i])
                    is Some
                &&& plan.keys@.len() == items@.len()
                &&& forall|i: int| 0 <= i < items@.len() ==> check_spec(#[trigger] items@[i])
                    == Some(plan.keys@[i])
                &&& plan.backend@ == split_indices(plan.keys@, items@.len() as int, true)
                &&& plan.device@ == split_indices(plan.keys@, items@.len() as int, false)
            },
            Err(i) => {
                &&& i < items@.len()
                &&& check_spec(items@[i as int]) is None
                &&& forall|j: int| 0 <= j < i ==> check_spec(#[trigger] items@[j]) is Some
            },
        },
{
    let mut keys: Vec<ConfigKey> = Vec::new();
    let mut backend: Vec<usize> = Vec::new();
    let mut device: Vec<usize> = Vec::new();
    let mut i: usize = 0;
    while i < items.len()
        invariant
            i <= items@.len(),
            keys@.len() == i,
            forall|j: int| 0 <= j < i ==> check_spec(#[trigger] items@[j]) == Some(keys@[j]),
            backend@ == split_indices(keys@, i as int, true),
            device@ == split_indices(keys@, i as int, false),
        decreases items@.len() - i,
    {
        let k = match check_config_item(&items[i]) {
            Some(k) => k,
            None => return Err(i),
        };
        let ghost old_keys = keys@;
        keys.push(k);
        assert forall|b: bool| split_indices(keys@, i as int, b) == split_indices(
            old_keys,
            i as int,
            b,
        ) by {
            lemma_split_prefix(old_keys, keys@, i as int, b);
        }
        if backend_key(k) {
            backend.push(i);
        } else {
            device.push(i);
        }
        i += 1;
    }
    Ok(ConfigPlan { keys, backend, device })
}

proof fn lemma_split_prefix(a: Seq<ConfigKey>, b: Seq<ConfigKey>, n: int, backend: bool)
    requires
        0 <= n <= a.len(),
        n <= b.len(),
        forall|j: int| 0 <= j < n ==> a[j] == b[j],
    ensures
        split_indices(a, n, backend) == split_indices(b, n, backend),
    decreases n,
{
    if n > 0 {
        lemma_split_prefix(a, b, n - 1, backend);
    }
}

/// What to do next while applying the device settings of a batch.
#[derive(Clone, Copy, PartialEq, Eq, Structural, Debug)]
pub enum ApplyStep {
    /// Register a waiter, publish the setting at this position, and await it.
    Publish(usize),
    /// Every setting was acknowledged.
    Done,
    /// Stop; the remaining settings are not sent.
    Abort(CommandError),
}

/// How the wait for one setting ended.
#[derive(Clone, Copy, PartialEq, Eq, Structural, Debug)]
pub enum ApplyEvent {
    Acknowledged,
    TimedOut,
    /// The command could not be published, or the wait was abandoned.
    Failed,
}

/// The first step for a batch of `total` device settings.
pub fn first_apply_step(total: usize) -> (r: ApplyStep)
    ensures
        total == 0 ==> r == ApplyStep::Done,
        total > 0 ==> r == ApplyStep::Publish(0),
{
    if total == 0 {
        ApplyStep::Done
    } else {
        ApplyStep::Publish(0)
    }
}

/// The step after the setting at position `current` of `total` ended with `event`.
pub fn next_apply_step(current: usize, total: usize, event: ApplyEvent) -> (r: ApplyStep)
    requires
        current < total,
    ensures
        event == ApplyEvent::Acknowledged && current + 1 < total ==> r == ApplyStep::Publish(
            (current + 1) as usize,
        ),
        event == ApplyEvent::Acknowledged && current + 1 == total ==> r == ApplyStep::Done,
        event == ApplyEvent::TimedOut ==> r == ApplyStep::Abort(CommandError::Timeout),
        event == ApplyEvent::Failed ==> r == ApplyStep::Abort(CommandError::Failed),
{
    match event {
        ApplyEvent::Acknowledged => if current + 1 < total {
            ApplyStep::Publish(current + 1)
        } else {
            ApplyStep::Done
        },
        ApplyEvent::TimedOut => ApplyStep::Abort(CommandError::Timeout),
        ApplyEvent::Failed => ApplyStep::Abort(CommandError::Failed),
    }
}

/// Lower-case hexadecimal digits, by value.
pub open spec fn hex_digits() -> Seq<char> {
    seq!['0', '1', '2', '3', '4', '5', '6', '7', '8', '9', 'a', 'b', 'c', 'd', 'e', 'f']
}

/// The `k`-th hexadecimal digit of `id`, counting from the most significant.
pub open spec fn nibble(id: u128, k: int) -> int {
    (id as int / pow2(((31 - k) * 4) as nat) as int) % 16
}

/// The hyphenated lower-case text of a UUID: its 32 hex digits, most
/// significant first, in groups of 8, 4, 4, 4 and 12 joined by `-`.
pub open spec fn hyphenated_uuid(id: u128) -> Seq<char> {
    Seq::new(
        36,
        |p: int|
            if p == 8 || p == 13 || p == 18 || p == 23 {
                '-'
            } else {
                let hyphens_before = if p < 8 {
                    0int
                } else if p < 13 {
                    1int
                } else if p < 18 {
                    2int
                } else if p < 23 {
                    3int
                } else {
                    4int
                };
                hex_digits()[nibble(id, p - hyphens_before)]
            },
    )
}

/// Relies on `uuid::Uuid::from_u128` and uuid's `Display` for `Uuid`, which
/// writes the hyphenated lower-case form.
#[verifier::external_body]
fn uuid_text(device: u128) -> (r: String)
    ensures
        r@ == hyphenated_uuid(device),
{
    uuid::Uuid::from_u128(device).to_string()
}

/// The topic on which `device` receives commands.
pub fn control_topic(device: u128) -> (r: String)
    ensures
        r@ == "lockwise/"@ + hyphenated_uuid(device) + "/control"@,
{
    let id = uuid_text(device);
    let mut topic = "lockwise/".to_owned();
    topic.append(id.as_str());
    topic.append("/control");
    topic
}

/// The CBOR encoding of a map from text keys to text values.
pub uninterp spec fn cbor_text_map(fields: Seq<(Seq<char>, Seq<char>)>) -> Seq<u8>;

pub open spec fn text_pairs(fields: Seq<(String, String)>) -> Seq<(Seq<char>, Seq<char>)> {
    fields.map_values(|p: (String, String)| (p.0@, p.1@))
}

/// Relies on `serde_cbor::to_vec` of a `serde_cbor::Value::Map` of text
/// items, which cannot fail: writing into a `Vec` is infallible and text and
/// map values always serialise.
#[verifier::external_body]
fn encode_text_map(fields: &Vec<(String, String)>) -> (r: Vec<u8>)
    ensures
        r@ == cbor_text_map(text_pairs(fields@)),
{
    let m: BTreeMap<Value, Value> = fields.iter().map(
        |(k, v)| (Value::Text(k.clone()), Value::Text(v.clone())),
    ).collect();
    serde_cbor::to_vec(&Value::Map(m)).unwrap_or_default()
}

/// The payload of a plain command such as `PING`, `LOCK`, `LOCKDOWN` or `REBOOT`.
pub fn control_payload(command: &str) -> (r: Vec<u8>)
    ensures
        r@ == cbor_text_map(seq![("command"@, command@)]),
{
    let fields = vec![("command".to_owned(), command.to_owned())];
    assert(text_pairs(fields@) =~= seq![("command"@, command@)]);
    encode_text_map(&fields)
}

/// The payload that asks a device to apply one setting.
pub fn config_payload(key: &str, value: &str) -> (r: Vec<u8>)
    ensures
        r@ == cbor_text_map(
            seq![("command"@, "update_config"@), ("key"@, key@), ("value"@, value@)],
        ),
{
    let fields = vec![
        ("command".to_owned(), "update_config".to_owned()),
        ("key".to_owned(), key.to_owned()),
        ("value".to_owned(), value.to_owned()),
    ];
    assert(text_pairs(fields@) =~= seq![
        ("command"@, "update_config"@),
        ("key"@, key@),
        ("value"@, value@),
    ]);
    encode_text_map(&fields)
}

} // verus!
