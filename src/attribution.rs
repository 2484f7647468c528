//! Recent-command attribution: which actor most plausibly caused a lock
//! transition that a device reports on its own.
use std::collections::HashMap;
use vstd::prelude::*;

verus! {

broadcast use vstd::std_specs::hash::group_hash_axioms;

/// How long after a command a reported transition is still credited to the
/// command's issuer.
pub const ATTRIBUTION_WINDOW_MS: u64 = 5000;

/// The last state-changing command issued to one device.
pub struct Attribution {
    pub actor: String,
    pub issued_at_ms: u64,
}

/// Whether a command issued at `issued_at_ms` may still be credited at `now_ms`.
/// A command stamped after `now_ms` (clock skew between callers) counts as recent.
pub open spec fn is_recent(issued_at_ms: u64, now_ms: u64) -> bool {
    (now_ms as int) - (issued_at_ms as int) < ATTRIBUTION_WINDOW_MS as int
}

/// The table after `record`.
pub open spec fn record_model(
    m: Map<u128, Attribution>,
    device: u128,
    actor: String,
    now_ms: u64,
) -> Map<u128, Attribution> {
    m.insert(device, Attribution { actor, issued_at_ms: now_ms })
}

/// What `take_if_recent` hands back: the actor of a recent entry, else nothing.
pub open spec fn take_result(m: Map<u128, Attribution>, device: u128, now_ms: u64) -> Option<
    String,
> {
    if m.contains_key(device) && is_recent(m[device].issued_at_ms, now_ms) {
        Some(m[device].actor)
    } else {
        None
    }
}

/// Within the window a take yields the recorded actor and consumes the entry,
/// so a second take right after yields nothing.
pub proof fn lemma_take_within_window_consumes(
    m: Map<u128, Attribution>,
    device: u128,
    actor: String,
    issued_ms: u64,
    now_ms: u64,
    again_ms: u64,
)
    requires
        issued_ms <= now_ms,
        (now_ms as int) < issued_ms as int + ATTRIBUTION_WINDOW_MS as int,
    ensures
        take_result(record_model(m, device, actor, issued_ms), device, now_ms) == Some(actor),
        take_result(record_model(m, device, actor, issued_ms).remove(device), device, again_ms)
            is None,
{
}

/// Once the window has elapsed a take yields nothing (and still removes the entry).
pub proof fn lemma_take_after_window_misses(
    m: Map<u128, Attribution>,
    device: u128,
    actor: String,
    issued_ms: u64,
    now_ms: u64,
)
    requires
        (now_ms as int) >= issued_ms as int + ATTRIBUTION_WINDOW_MS as int,
    ensures
        take_result(record_model(m, device, actor, issued_ms), device, now_ms) is None,
{
}

/// With no entry for the device a take yields nothing.
pub proof fn lemma_take_absent_misses(m: Map<u128, Attribution>, device: u128, now_ms: u64)
    requires
        !m.contains_key(device),
    ensures
        take_result(m, device, now_ms) is None,
{
}

/// Per-device record of the most recent command issuer.
pub struct AttributionWindow {
    entries: HashMap<u128, Attribution>,
}

impl View for AttributionWindow {
    type V = Map<u128, Attribution>;

    closed spec fn view(&self) -> Map<u128, Attribution> {
        self.entries@
    }
}

impl AttributionWindow {
    pub fn new() -> (r: Self)
        ensures
            r@ == Map::<u128, Attribution>::empty(),
    {
        AttributionWindow { entries: HashMap::new() }
    }

    /// Records that `actor` issued a command to `device` at `now_ms`,
    /// replacing any earlier entry for that device.
    pub fn record(&mut self, device: u128, actor: String, now_ms: u64)
        ensures
            final(self)@ == record_model(old(self)@, device, actor, now_ms),
    {
        self.entries.insert(device, Attribution { actor, issued_at_ms: now_ms });
    }

    /// Consumes the entry for `device`, returning its actor when the entry is
    /// still within the attribution window. A stale entry is removed as well.
    pub fn take_if_recent(&mut self, device: u128, now_ms: u64) -> (r: Option<String>)
        ensures
            final(self)@ == old(self)@.remove(device),
            r == take_result(old(self)@, device, now_ms),
    {
        match self.entries.remove(&device) {
            Some(a) => {
                if (now_ms as i128) - (a.issued_at_ms as i128) < ATTRIBUTION_WINDOW_MS as i128 {
                    Some(a.actor)
                } else {
                    None
                }
            },
            None => None,
        }
    }
}

} // verus!
