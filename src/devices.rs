//! Last-known device state, reconciled from what devices report.
//!
//! Lock state and lockdown are independent: lockdown is entered by a device
//! event and cleared only by a heartbeat that comes at least
//! `LOCKDOWN_DEBOUNCE_MS` after the lockdown's own timestamp.
use crate::payload::{DeviceConfig, HeartbeatMessage};
use std::collections::HashMap;
use vstd::prelude::*;

verus! {

broadcast use vstd::std_specs::hash::group_hash_axioms;

/// How long after entering lockdown a heartbeat must come to clear it.
pub const LOCKDOWN_DEBOUNCE_MS: u64 = 10000;

#[derive(Clone, Copy, PartialEq, Eq, Structural, Debug)]
pub enum LockState {
    Unknown,
    Locked,
    Unlocked,
}

/// What the server knows of one device.
pub struct DeviceRecord {
    /// The user id that the device reports as its owner.
    pub owner: String,
    pub last_heard_ms: u64,
    pub uptime_ms: u64,
    pub config: DeviceConfig,
    pub lock_state: LockState,
    /// Device clock, seconds; present exactly while the device is in lockdown.
    pub lockdown_at_s: Option<u64>,
}

/// The lock state that a heartbeat reports: `UNKNOWN` when absent or unrecognised.
pub open spec fn reported_lock_state(s: Option<String>) -> LockState {
    match s {
        Some(t) => if t@ == "LOCKED"@ {
            LockState::Locked
        } else if t@ == "UNLOCKED"@ {
            LockState::Unlocked
        } else {
            LockState::Unknown
        },
        None => LockState::Unknown,
    }
}

/// Whether a heartbeat handled at `now_ms` ends the lockdown.
pub open spec fn clears_lockdown(lockdown_at_s: Option<u64>, now_ms: u64) -> bool {
    match lockdown_at_s {
        Some(at) => now_ms as int - at as int * 1000 >= LOCKDOWN_DEBOUNCE_MS as int,
        None => false,
    }
}

/// The stored record of `device`, if any.
pub open spec fn prior(m: Map<u128, DeviceRecord>, device: u128) -> Option<DeviceRecord> {
    if m.contains_key(device) {
        Some(m[device])
    } else {
        None
    }
}

/// The record after a heartbeat handled at `now_ms`.
pub open spec fn heartbeat_record(
    prev: Option<DeviceRecord>,
    hb: HeartbeatMessage,
    now_ms: u64,
) -> DeviceRecord {
    let lockdown = match prev {
        Some(r) => r.lockdown_at_s,
        None => None,
    };
    DeviceRecord {
        owner: hb.user_id,
        last_heard_ms: now_ms,
        uptime_ms: hb.uptime_ms,
        config: hb.config,
        lock_state: reported_lock_state(hb.lock_state),
        lockdown_at_s: if clears_lockdown(lockdown, now_ms) {
            None
        } else {
            lockdown
        },
    }
}

/// The table after `device` reports entering lockdown at `at_s`; unknown devices are left out.
pub open spec fn lockdown_model(m: Map<u128, DeviceRecord>, device: u128, at_s: u64) -> Map<
    u128,
    DeviceRecord,
> {
    if m.contains_key(device) {
        m.insert(device, DeviceRecord { lockdown_at_s: Some(at_s), ..m[device] })
    } else {
        m
    }
}

/// The table after `device` reports lock state `s`; unknown devices are left out.
pub open spec fn lock_state_model(m: Map<u128, DeviceRecord>, device: u128, s: LockState) -> Map<
    u128,
    DeviceRecord,
> {
    if m.contains_key(device) {
        m.insert(device, DeviceRecord { lock_state: s, ..m[device] })
    } else {
        m
    }
}

pub fn lock_state_of(s: &Option<String>) -> (r: LockState)
    ensures
        r == reported_lock_state(*s),
{
    match s {
        Some(t) => if *t == "LOCKED".to_owned() {
            LockState::Locked
        } else if *t == "UNLOCKED".to_owned() {
            LockState::Unlocked
        } else {
            LockState::Unknown
        },
        None => LockState::Unknown,
    }
}

/// Whether a heartbeat handled at `now_ms` ends a lockdown entered at `lockdown_at_s`.
pub fn lockdown_ends(lockdown_at_s: Option<u64>, now_ms: u64) -> (r: bool)
    ensures
        r == clears_lockdown(lockdown_at_s, now_ms),
{
    match lockdown_at_s {
        Some(at) => (now_ms as u128) >= (at as u128) * 1000 + LOCKDOWN_DEBOUNCE_MS as u128,
        None => false,
    }
}

/// After a heartbeat, the device's last-heard time is the handling time and
/// its uptime, configuration and owner are the reported ones; handling the
/// identical heartbeat again at the same time leaves the table as it is.
pub proof fn lemma_heartbeat_mirrors_and_is_idempotent(
    m: Map<u128, DeviceRecord>,
    device: u128,
    hb: HeartbeatMessage,
    now_ms: u64,
)
    ensures
        ({
            let m1 = m.insert(device, heartbeat_record(prior(m, device), hb, now_ms));
            &&& m1[device].last_heard_ms == now_ms
            &&& m1[device].uptime_ms == hb.uptime_ms
            &&& m1[device].config == hb.config
            &&& m1[device].owner == hb.user_id
            &&& m1[device].lock_state == reported_lock_state(hb.lock_state)
            &&& m1.insert(device, heartbeat_record(prior(m1, device), hb, now_ms)) == m1
        }),
{
    let m1 = m.insert(device, heartbeat_record(prior(m, device), hb, now_ms));
    assert(m1.insert(device, heartbeat_record(prior(m1, device), hb, now_ms)) =~= m1);
}

/// A heartbeat ends a lockdown exactly when it is handled at least
/// `LOCKDOWN_DEBOUNCE_MS` after the lockdown's timestamp; otherwise the
/// lockdown timestamp is kept as it was.
pub proof fn lemma_lockdown_debounce(
    m: Map<u128, DeviceRecord>,
    device: u128,
    hb: HeartbeatMessage,
    now_ms: u64,
)
    requires
        m.contains_key(device),
        m[device].lockdown_at_s is Some,
    ensures
        ({
            let at = m[device].lockdown_at_s.unwrap();
            let after = heartbeat_record(prior(m, device), hb, now_ms).lockdown_at_s;
            &&& (after is None <==> now_ms as int - at as int * 1000
                >= LOCKDOWN_DEBOUNCE_MS as int)
            &&& (after is Some ==> after == m[device].lockdown_at_s)
        }),
{
}

/// A heartbeat never puts a device into lockdown, and a lock-state report
/// neither starts nor ends one.
pub proof fn lemma_only_events_and_heartbeats_move_lockdown(
    m: Map<u128, DeviceRecord>,
    device: u128,
    hb: HeartbeatMessage,
    now_ms: u64,
    s: LockState,
)
    ensures
        prior(m, device) is None || m[device].lockdown_at_s is None ==> heartbeat_record(
            prior(m, device),
            hb,
            now_ms,
        ).lockdown_at_s is None,
        forall|d: u128| #[trigger]
            lock_state_model(m, device, s).contains_key(d) ==> m.contains_key(d)
                && lock_state_model(m, device, s)[d].lockdown_at_s == m[d].lockdown_at_s,
{
}

/// Every device the server has heard from, by id.
pub struct DeviceTable {
    devices: HashMap<u128, DeviceRecord>,
}

impl View for DeviceTable {
    type V = Map<u128, DeviceRecord>;

    closed spec fn view(&self) -> Map<u128, DeviceRecord> {
        self.devices@
    }
}

impl DeviceTable {
    pub fn new() -> (r: Self)
        ensures
            r@ == Map::<u128, DeviceRecord>::empty(),
    {
        DeviceTable { devices: HashMap::new() }
    }

    pub fn get(&self, device: u128) -> (r: Option<&DeviceRecord>)
        ensures
            match r {
                Some(rec) => self@.contains_key(device) && *rec == self@[device],
                None => !self@.contains_key(device),
            },
    {
        self.devices.get(&device)
    }

    /// Applies a heartbeat handled at `now_ms`, creating the record on first
    /// contact. Returns whether a lockdown ended.
    pub fn apply_heartbeat(&mut self, device: u128, hb: HeartbeatMessage, now_ms: u64) -> (r: bool)
        ensures
            final(self)@ == old(self)@.insert(
                device,
                heartbeat_record(prior(old(self)@, device), hb, now_ms),
            ),
            r == (old(self)@.contains_key(device) && clears_lockdown(
                old(self)@[device].lockdown_at_s,
                now_ms,
            )),
    {
        let lockdown = match self.devices.get(&device) {
            Some(rec) => rec.lockdown_at_s,
            None => None,
        };
        let ends = lockdown_ends(lockdown, now_ms);
        let lock_state = lock_state_of(&hb.lock_state);
        let rec = DeviceRecord {
            owner: hb.user_id,
            last_heard_ms: now_ms,
            uptime_ms: hb.uptime_ms,
            config: hb.config,
            lock_state,
            lockdown_at_s: if ends {
                None
            } else {
                lockdown
            },
        };
        self.devices.insert(device, rec);
        ends
    }

    /// Marks `device` as in lockdown since `at_s` (device clock, seconds),
    /// leaving its lock state as it was. Does nothing for an unknown device.
    pub fn enter_lockdown(&mut self, device: u128, at_s: u64) -> (r: bool)
        ensures
            final(self)@ == lockdown_model(old(self)@, device, at_s),
            r == old(self)@.contains_key(device),
    {
        match self.devices.remove(&device) {
            Some(rec) => {
                self.devices.insert(device, DeviceRecord { lockdown_at_s: Some(at_s), ..rec });
                assert(self@ =~= lockdown_model(old(self)@, device, at_s));
                true
            },
            None => false,
        }
    }

    /// Sets the lock state of `device`. Does nothing for an unknown device.
    pub fn set_lock_state(&mut self, device: u128, s: LockState) -> (r: bool)
        ensures
            final(self)@ == lock_state_model(old(self)@, device, s),
            r == old(self)@.contains_key(device),
    {
        match self.devices.remove(&device) {
            Some(rec) => {
                self.devices.insert(device, DeviceRecord { lock_state: s, ..rec });
                assert(self@ =~= lock_state_model(old(self)@, device, s));
                true
            },
            None => false,
        }
    }
}

} // verus!
