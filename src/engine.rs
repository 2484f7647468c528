//! The inbound path and the command side of the engine.
//!
//! Inbound: a status topic names the device, the payload is classified, and
//! each message is applied to device state, to a waiter track, or turned into
//! an access-log entry. Outbound: command-issuing operations register their
//! waiters and record who issued a command. The engine only decides; the
//! caller publishes, suspends, writes logs and notifies clients.
use crate::attribution::{take_result, Attribution, AttributionWindow};
use crate::devices::{
    clears_lockdown, heartbeat_record, lemma_heartbeat_mirrors_and_is_idempotent, lock_state_model, lockdown_model, prior, DeviceRecord,
    DeviceTable, LockState,
};
use crate::payload::{classify, classify_payload_spec, Classified, HeartbeatMessage, LockStatusMessage};
use crate::registry::{
    can_register, register_model, registered_waiter, resolve_model, resolve_result, tickets_issued,
    time_out_model, TableModel, Waiter, WaiterTable,
};
use vstd::prelude::*;
use vstd::string::StringSliceAdditionalSpecFns;

verus! {

broadcast use vstd::std_specs::hash::group_hash_axioms;

/// The 128-bit value of the UUID written in `text`, or `None` when `text` is
/// not a UUID.
pub uninterp spec fn uuid_value(text: Seq<u8>) -> Option<u128>;

/// Relies on `uuid::Uuid::try_parse_ascii` (the parser behind
/// `Uuid::parse_str`) and `Uuid::as_u128`.
#[verifier::external_body]
fn parse_uuid(text: &[u8]) -> (r: Option<u128>)
    ensures
        r == uuid_value(text@),
{
    match uuid::Uuid::try_parse_ascii(text) {
        Ok(u) => Some(u.as_u128()),
        Err(_) => None,
    }
}

/// Parses a device id written as a UUID.
pub fn parse_device_id(text: &str) -> (r: Option<u128>)
    ensures
        r == uuid_value(text.spec_bytes()),
{
    parse_uuid(text.as_bytes())
}

/// `lockwise/`
pub open spec fn status_prefix() -> Seq<u8> {
    seq![108u8, 111u8, 99u8, 107u8, 119u8, 105u8, 115u8, 101u8, 47u8]
}

/// `/status`
pub open spec fn status_suffix() -> Seq<u8> {
    seq![47u8, 115u8, 116u8, 97u8, 116u8, 117u8, 115u8]
}

/// The device part of a status topic `lockwise/<id>/status`.
pub open spec fn status_topic_id(t: Seq<u8>) -> Option<Seq<u8>> {
    if t.len() >= 16 && t.subrange(0, 9) == status_prefix() && t.subrange(
        t.len() - 7,
        t.len() as int,
    ) == status_suffix() {
        Some(t.subrange(9, t.len() - 7))
    } else {
        None
    }
}

fn bytes_at(t: &[u8], start: usize, pat: &Vec<u8>) -> (r: bool)
    requires
        start + pat@.len() <= t@.len(),
    ensures
        r == (t@.subrange(start as int, start + pat@.len()) == pat@),
{
    let n = t.len();
    let mut i: usize = 0;
    while i < pat.len()
        invariant
            n == t@.len(),
            i <= pat@.len(),
            start + pat@.len() <= t@.len(),
            forall|j: int| 0 <= j < i ==> t@[start + j] == pat@[j],
        decreases pat@.len() - i,
    {
        if t[start + i] != pat[i] {
            assert(t@.subrange(start as int, start + pat@.len())[i as int] != pat@[i as int]);
            return false;
        }
        i += 1;
    }
    assert(t@.subrange(start as int, start + pat@.len()) =~= pat@);
    true
}

/// Extracts the device part of a status topic.
pub fn status_topic_device(topic: &str) -> (r: Option<Vec<u8>>)
    ensures
        match r {
            Some(v) => status_topic_id(topic.spec_bytes()) == Some(v@),
            None => status_topic_id(topic.spec_bytes()) is None,
        },
{
    let t = topic.as_bytes();
    let n = t.len();
    if n < 16 {
        return None;
    }
    let prefix: Vec<u8> = vec![108u8, 111u8, 99u8, 107u8, 119u8, 105u8, 115u8, 101u8, 47u8];
    let suffix: Vec<u8> = vec![47u8, 115u8, 116u8, 97u8, 116u8, 117u8, 115u8];
    assert(prefix@ =~= status_prefix());
    assert(suffix@ =~= status_suffix());
    if !bytes_at(t, 0, &prefix) || !bytes_at(t, n - 7, &suffix) {
        return None;
    }
    let mut out: Vec<u8> = Vec::new();
    let mut i: usize = 9;
    while i < n - 7
        invariant
            9 <= i <= n - 7,
            n == t@.len(),
            n >= 16,
            out@ == t@.subrange(9, i as int),
        decreases n - 7 - i,
    {
        out.push(t[i]);
        i += 1;
        assert(out@ =~= t@.subrange(9, i as int));
    }
    Some(out)
}

/// One entry of the access log: who (if anyone) caused a reported transition.
pub struct AccessLogEntry {
    pub device: u128,
    /// Device clock, seconds.
    pub timestamp_s: u64,
    pub direction: LockState,
    pub reason: String,
    pub actor: Option<String>,
}

/// What handling one inbound message did.
pub enum StatusEffect {
    /// The payload matched no shape; nothing changed.
    Undecodable,
    /// The heartbeat shape matched but its marker was not `HEARTBEAT`; nothing changed.
    NotHeartbeat,
    /// The device record was written.
    Heartbeat { lockdown_cleared: bool },
    /// A liveness acknowledgment; `completed` is the ticket it completed.
    ProbeAck { completed: Option<u64> },
    /// A configuration acknowledgment; `completed` is the ticket it completed.
    ConfigAck { completed: Option<u64> },
    /// The device entered lockdown; `known_device` says whether a record was updated.
    LockdownEntered { known_device: bool },
    /// An event of a kind the engine does not act on.
    UnknownEvent,
    /// A lock transition, with its access-log entry.
    LockTransition(AccessLogEntry),
}

/// Why a message on a topic was not handled.
#[derive(Clone, Copy, PartialEq, Eq, Structural, Debug)]
pub enum TopicError {
    NotStatusTopic,
    BadDeviceId,
}

/// The abstract state of the engine.
pub struct EngineModel {
    pub devices: Map<u128, DeviceRecord>,
    pub probes: TableModel,
    pub config_applies: TableModel,
    pub attribution: Map<u128, Attribution>,
}

/// The lock state that a transition report names.
pub open spec fn transition_direction(lock: String) -> LockState {
    if lock@ == "LOCKED"@ {
        LockState::Locked
    } else {
        LockState::Unlocked
    }
}

/// The state and effect after handling classified message `msg` from `device` at `now_ms`.
pub open spec fn process_spec(s: EngineModel, device: u128, msg: Classified, now_ms: u64) -> (
    EngineModel,
    StatusEffect,
) {
    match msg {
        Classified::Heartbeat(h) => if h.heartbeat@ == "HEARTBEAT"@ {
            (
                EngineModel {
                    devices: s.devices.insert(
                        device,
                        heartbeat_record(prior(s.devices, device), h, now_ms),
                    ),
                    ..s
                },
                StatusEffect::Heartbeat {
                    lockdown_cleared: s.devices.contains_key(device) && clears_lockdown(
                        s.devices[device].lockdown_at_s,
                        now_ms,
                    ),
                },
            )
        } else {
            (s, StatusEffect::NotHeartbeat)
        },
        Classified::Event(e) => if e.event@ == "PONG"@ {
            (
                EngineModel { probes: resolve_model(s.probes, device), ..s },
                StatusEffect::ProbeAck { completed: resolve_result(s.probes, device, now_ms) },
            )
        } else if e.event@ == "CONFIG_UPDATED"@ {
            (
                EngineModel { config_applies: resolve_model(s.config_applies, device), ..s },
                StatusEffect::ConfigAck {
                    completed: resolve_result(s.config_applies, device, now_ms),
                },
            )
        } else if e.event@ == "LOCKING_DOWN"@ {
            (
                EngineModel { devices: lockdown_model(s.devices, device, e.timestamp), ..s },
                StatusEffect::LockdownEntered { known_device: s.devices.contains_key(device) },
            )
        } else {
            (s, StatusEffect::UnknownEvent)
        },
        Classified::LockStatus(l) => {
            let direction = transition_direction(l.lock);
            (
                EngineModel {
                    devices: lock_state_model(s.devices, device, direction),
                    attribution: s.attribution.remove(device),
                    ..s
                },
                StatusEffect::LockTransition(
                    AccessLogEntry {
                        device,
                        timestamp_s: l.timestamp,
                        direction,
                        reason: l.reason,
                        actor: take_result(s.attribution, device, now_ms),
                    },
                ),
            )
        },
        Classified::Unrecognized => (s, StatusEffect::Undecodable),
    }
}

/// The state and result after a payload arrives on `topic` at `now_ms`.
pub open spec fn handle_spec(s: EngineModel, topic: Seq<u8>, payload: Seq<u8>, now_ms: u64) -> (
    EngineModel,
    Result<(u128, StatusEffect), TopicError>,
) {
    match status_topic_id(topic) {
        None => (s, Err(TopicError::NotStatusTopic)),
        Some(id) => match uuid_value(id) {
            None => (s, Err(TopicError::BadDeviceId)),
            Some(device) => {
                let (s1, effect) = process_spec(s, device, classify_payload_spec(payload), now_ms);
                (s1, Ok((device, effect)))
            },
        },
    }
}

/// The lock state that a transition report names.
pub fn direction_of(lock: &String) -> (r: LockState)
    ensures
        r == transition_direction(*lock),
{
    if *lock == "LOCKED".to_owned() {
        LockState::Locked
    } else {
        LockState::Unlocked
    }
}

/// A heartbeat leaves the device's last-heard time at the handling time and
/// its uptime and configuration at the reported values; handling the same
/// heartbeat again at the same time leaves the whole engine as it was.
pub proof fn lemma_heartbeat_idempotent(
    s: EngineModel,
    device: u128,
    h: HeartbeatMessage,
    now_ms: u64,
)
    requires
        h.heartbeat@ == "HEARTBEAT"@,
    ensures
        ({
            let s1 = process_spec(s, device, Classified::Heartbeat(h), now_ms).0;
            &&& s1.devices.contains_key(device)
            &&& s1.devices[device].last_heard_ms == now_ms
            &&& s1.devices[device].uptime_ms == h.uptime_ms
            &&& s1.devices[device].config == h.config
            &&& process_spec(s1, device, Classified::Heartbeat(h), now_ms).0 == s1
        }),
{
    lemma_heartbeat_mirrors_and_is_idempotent(s.devices, device, h, now_ms);
}

/// The two waiter tracks are independent of each other and of device state:
/// only a liveness acknowledgment touches the probe track, only a
/// configuration acknowledgment the configuration track.
pub proof fn lemma_tracks_independent(s: EngineModel, device: u128, msg: Classified, now_ms: u64)
    ensures
        ({
            let s1 = process_spec(s, device, msg, now_ms).0;
            let (pong, config_updated) = match msg {
                Classified::Event(e) => (e.event@ == "PONG"@, e.event@ == "CONFIG_UPDATED"@),
                _ => (false, false),
            };
            &&& !pong ==> s1.probes == s.probes
            &&& !config_updated ==> s1.config_applies == s.config_applies
        }),
{
}

/// Only a heartbeat ends a lockdown: any other message leaves a device that
/// is in lockdown in lockdown.
pub proof fn lemma_only_heartbeats_clear_lockdown(
    s: EngineModel,
    device: u128,
    d: u128,
    msg: Classified,
    now_ms: u64,
)
    requires
        !(msg is Heartbeat),
        s.devices.contains_key(d),
        s.devices[d].lockdown_at_s is Some,
    ensures
        ({
            let s1 = process_spec(s, device, msg, now_ms).0;
            s1.devices.contains_key(d) && s1.devices[d].lockdown_at_s is Some
        }),
{
}

/// Lock-transition reports are idempotent on device state: the same report
/// handled twice leaves every device record as handling it once does.
pub proof fn lemma_lock_report_idempotent(
    s: EngineModel,
    device: u128,
    report: LockStatusMessage,
    now_ms: u64,
    again_ms: u64,
)
    ensures
        ({
            let s1 = process_spec(s, device, Classified::LockStatus(report), now_ms).0;
            let s2 = process_spec(s1, device, Classified::LockStatus(report), again_ms).0;
            s2.devices == s1.devices
        }),
{
    let s1 = process_spec(s, device, Classified::LockStatus(report), now_ms).0;
    let s2 = process_spec(s1, device, Classified::LockStatus(report), again_ms).0;
    assert(s2.devices =~= s1.devices);
}

/// The correlation and reconciliation state shared by the inbound path and
/// every command-issuing operation.
pub struct Engine {
    devices: DeviceTable,
    probes: WaiterTable,
    config_applies: WaiterTable,
    attribution: AttributionWindow,
}

impl View for Engine {
    type V = EngineModel;

    closed spec fn view(&self) -> EngineModel {
        EngineModel {
            devices: self.devices@,
            probes: self.probes@,
            config_applies: self.config_applies@,
            attribution: self.attribution@,
        }
    }
}

impl Engine {
    pub open spec fn wf(&self) -> bool {
        tickets_issued(self@.probes) && tickets_issued(self@.config_applies)
    }

    pub fn new() -> (r: Self)
        ensures
            r.wf(),
            r@.devices == Map::<u128, DeviceRecord>::empty(),
            r@.probes.pending == Map::<u128, crate::registry::Pending>::empty(),
            r@.probes.next_ticket == 0,
            r@.config_applies.pending == Map::<u128, crate::registry::Pending>::empty(),
            r@.config_applies.next_ticket == 0,
            r@.attribution == Map::<u128, Attribution>::empty(),
    {
        Engine {
            devices: DeviceTable::new(),
            probes: WaiterTable::new(),
            config_applies: WaiterTable::new(),
            attribution: AttributionWindow::new(),
        }
    }

    /// The stored record of `device`.
    pub fn device(&self, device: u128) -> (r: Option<&DeviceRecord>)
        ensures
            match r {
                Some(rec) => self@.devices.contains_key(device) && *rec == self@.devices[device],
                None => !self@.devices.contains_key(device),
            },
    {
        self.devices.get(device)
    }

    /// Registers a liveness-probe waiter for `device`, replacing any
    /// outstanding one; to be called before the probe command is published.
    /// `None` only when no ticket is left or the deadline would not fit.
    pub fn begin_probe(&mut self, device: u128, now_ms: u64) -> (r: Option<Waiter>)
        requires
            old(self).wf(),
        ensures
            final(self).wf(),
            can_register(old(self)@.probes, now_ms) ==> r == Some(
                registered_waiter(old(self)@.probes, device, now_ms),
            ) && final(self)@ == (EngineModel {
                probes: register_model(old(self)@.probes, device, now_ms),
                ..old(self)@
            }),
            !can_register(old(self)@.probes, now_ms) ==> r is None && final(self)@ == old(self)@,
    {
        if self.probes.next_ticket() < u64::MAX && now_ms <= u64::MAX - crate::registry::ACK_TIMEOUT_MS {
            Some(self.probes.register(device, now_ms))
        } else {
            None
        }
    }

    /// Registers a configuration-apply waiter for `device`, replacing any
    /// outstanding one; to be called before the configuration command is
    /// published. `None` only when no ticket is left or the deadline would not fit.
    pub fn begin_config_apply(&mut self, device: u128, now_ms: u64) -> (r: Option<Waiter>)
        requires
            old(self).wf(),
        ensures
            final(self).wf(),
            can_register(old(self)@.config_applies, now_ms) ==> r == Some(
                registered_waiter(old(self)@.config_applies, device, now_ms),
            ) && final(self)@ == (EngineModel {
                config_applies: register_model(old(self)@.config_applies, device, now_ms),
                ..old(self)@
            }),
            !can_register(old(self)@.config_applies, now_ms) ==> r is None && final(self)@
                == old(self)@,
    {
        if self.config_applies.next_ticket() < u64::MAX && now_ms <= u64::MAX
            - crate::registry::ACK_TIMEOUT_MS {
            Some(self.config_applies.register(device, now_ms))
        } else {
            None
        }
    }

    /// Removes a probe waiter that timed out; a waiter that replaced it stays.
    pub fn expire_probe(&mut self, w: &Waiter) -> (r: bool)
        requires
            old(self).wf(),
        ensures
            final(self).wf(),
            final(self)@ == (EngineModel {
                probes: time_out_model(old(self)@.probes, *w),
                ..old(self)@
            }),
            r == (old(self)@.probes.pending.contains_key(w.device)
                && old(self)@.probes.pending[w.device].ticket == w.ticket),
    {
        self.probes.time_out(w)
    }

    /// Removes a configuration-apply waiter that timed out; a waiter that
    /// replaced it stays.
    pub fn expire_config_apply(&mut self, w: &Waiter) -> (r: bool)
        requires
            old(self).wf(),
        ensures
            final(self).wf(),
            final(self)@ == (EngineModel {
                config_applies: time_out_model(old(self)@.config_applies, *w),
                ..old(self)@
            }),
            r == (old(self)@.config_applies.pending.contains_key(w.device)
                && old(self)@.config_applies.pending[w.device].ticket == w.ticket),
    {
        self.config_applies.time_out(w)
    }

    /// Records that `actor` issued a state-changing command to `device` at `now_ms`.
    pub fn record_command(&mut self, device: u128, actor: String, now_ms: u64)
        requires
            old(self).wf(),
        ensures
            final(self).wf(),
            final(self)@ == (EngineModel {
                attribution: crate::attribution::record_model(
                    old(self)@.attribution,
                    device,
                    actor,
                    now_ms,
                ),
                ..old(self)@
            }),
    {
        self.attribution.record(device, actor, now_ms);
    }

    /// Applies one classified message from `device`, handled at `now_ms`.
    pub fn process(&mut self, device: u128, msg: Classified, now_ms: u64) -> (r: StatusEffect)
        requires
            old(self).wf(),
        ensures
            final(self).wf(),
            (final(self)@, r) == process_spec(old(self)@, device, msg, now_ms),
    {
        match msg {
            Classified::Heartbeat(h) => {
                if h.heartbeat == "HEARTBEAT".to_owned() {
                    let cleared = self.devices.apply_heartbeat(device, h, now_ms);
                    StatusEffect::Heartbeat { lockdown_cleared: cleared }
                } else {
                    StatusEffect::NotHeartbeat
                }
            },
            Classified::Event(e) => {
                if e.event == "PONG".to_owned() {
                    let completed = self.probes.resolve(device, now_ms);
                    StatusEffect::ProbeAck { completed }
                } else if e.event == "CONFIG_UPDATED".to_owned() {
                    let completed = self.config_applies.resolve(device, now_ms);
                    StatusEffect::ConfigAck { completed }
                } else if e.event == "LOCKING_DOWN".to_owned() {
                    let known_device = self.devices.enter_lockdown(device, e.timestamp);
                    StatusEffect::LockdownEntered { known_device }
                } else {
                    StatusEffect::UnknownEvent
                }
            },
            Classified::LockStatus(l) => {
                let direction = direction_of(&l.lock);
                let actor = self.attribution.take_if_recent(device, now_ms);
                self.devices.set_lock_state(device, direction);
                StatusEffect::LockTransition(
                    AccessLogEntry {
                        device,
                        timestamp_s: l.timestamp,
                        direction,
                        reason: l.reason,
                        actor,
                    },
                )
            },
            Classified::Unrecognized => StatusEffect::Undecodable,
        }
    }

    /// Handles a payload that arrived on `topic` at `now_ms`: a status topic
    /// of a well-formed device id has its payload classified and applied;
    /// any other topic changes nothing.
    pub fn handle_status(&mut self, topic: &str, payload: &[u8], now_ms: u64) -> (r: Result<
        (u128, StatusEffect),
        TopicError,
    >)
        requires
            old(self).wf(),
        ensures
            final(self).wf(),
            (final(self)@, r) == handle_spec(old(self)@, topic.spec_bytes(), payload@, now_ms),
    {
        let id = match status_topic_device(topic) {
            Some(id) => id,
            None => return Err(TopicError::NotStatusTopic),
        };
        let device = match parse_uuid(id.as_slice()) {
            Some(d) => d,
            None => return Err(TopicError::BadDeviceId),
        };
        let msg = classify(payload);
        let effect = self.process(device, msg, now_ms);
        Ok((device, effect))
    }
}

} // verus!
