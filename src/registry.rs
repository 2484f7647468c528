//! Correlation of outbound commands with the acknowledgments that devices
//! later publish on their own.
//!
//! Each track (liveness probes, configuration applies) holds at most one
//! outstanding waiter per device. A waiter is named by a ticket; the side that
//! suspends keeps the ticket and learns of its completion when the table hands
//! that ticket back from `resolve`.
use std::collections::HashMap;
use vstd::prelude::*;

verus! {

broadcast use vstd::std_specs::hash::group_hash_axioms;

/// How long a command waits for its acknowledgment.
pub const ACK_TIMEOUT_MS: u64 = 10000;

/// The handle that a command-issuing operation holds while it waits.
#[derive(Clone, Copy, PartialEq, Eq, Structural, Debug)]
pub struct Waiter {
    pub device: u128,
    pub ticket: u64,
    pub deadline_ms: u64,
}

/// A table entry: the outstanding ticket of one device and its deadline.
#[derive(Clone, Copy, PartialEq, Eq, Structural, Debug)]
pub struct Pending {
    pub ticket: u64,
    pub deadline_ms: u64,
}

/// What a waiter observes at a given moment.
#[derive(Clone, Copy, PartialEq, Eq, Structural, Debug)]
pub enum WaitOutcome {
    Resolved,
    TimedOut,
    Waiting,
}

/// The abstract state of one track.
pub struct TableModel {
    pub pending: Map<u128, Pending>,
    pub next_ticket: u64,
}

/// Every outstanding ticket was issued before `next_ticket`, and no two
/// devices hold the same ticket.
pub open spec fn tickets_issued(t: TableModel) -> bool {
    &&& forall|d: u128| #[trigger] t.pending.contains_key(d) ==> t.pending[d].ticket < t.next_ticket
    &&& forall|d1: u128, d2: u128|
        #[trigger] t.pending.contains_key(d1) && #[trigger] t.pending.contains_key(d2) && d1 != d2
            ==> t.pending[d1].ticket != t.pending[d2].ticket
}

/// `register` is allowed while tickets remain and the deadline fits in a `u64`.
pub open spec fn can_register(t: TableModel, now_ms: u64) -> bool {
    &&& t.next_ticket < u64::MAX
    &&& now_ms as int + ACK_TIMEOUT_MS as int <= u64::MAX as int
}

/// The waiter that `register` hands out.
pub open spec fn registered_waiter(t: TableModel, device: u128, now_ms: u64) -> Waiter {
    Waiter {
        device,
        ticket: t.next_ticket,
        deadline_ms: (now_ms + ACK_TIMEOUT_MS) as u64,
    }
}

/// The track after `register`: the new waiter replaces any earlier one.
pub open spec fn register_model(t: TableModel, device: u128, now_ms: u64) -> TableModel {
    let w = registered_waiter(t, device, now_ms);
    TableModel {
        pending: t.pending.insert(device, Pending { ticket: w.ticket, deadline_ms: w.deadline_ms }),
        next_ticket: (t.next_ticket + 1) as u64,
    }
}

/// The ticket that `resolve` completes: the device's outstanding waiter, if its
/// deadline has not passed.
pub open spec fn resolve_result(t: TableModel, device: u128, now_ms: u64) -> Option<u64> {
    if t.pending.contains_key(device) && now_ms < t.pending[device].deadline_ms {
        Some(t.pending[device].ticket)
    } else {
        None
    }
}

/// The track after `resolve`: the device's entry, if any, is gone.
pub open spec fn resolve_model(t: TableModel, device: u128) -> TableModel {
    TableModel { pending: t.pending.remove(device), next_ticket: t.next_ticket }
}

/// The track after `time_out(w)`: `w`'s entry is gone, a later waiter's stays.
pub open spec fn time_out_model(t: TableModel, w: Waiter) -> TableModel {
    if t.pending.contains_key(w.device) && t.pending[w.device].ticket == w.ticket {
        TableModel { pending: t.pending.remove(w.device), next_ticket: t.next_ticket }
    } else {
        t
    }
}

/// What waiter `w` observes at `now_ms`, given the ticket completed for it (if any).
pub open spec fn wait_outcome(w: Waiter, completed: Option<u64>, now_ms: u64) -> WaitOutcome {
    if completed == Some(w.ticket) && now_ms < w.deadline_ms {
        WaitOutcome::Resolved
    } else if now_ms >= w.deadline_ms {
        WaitOutcome::TimedOut
    } else {
        WaitOutcome::Waiting
    }
}

/// A waiter whose acknowledgment arrives before its deadline is completed with
/// its own ticket, observes success at that moment, and leaves the table.
pub proof fn lemma_ack_before_deadline_resolves(
    t: TableModel,
    device: u128,
    issued_ms: u64,
    ack_ms: u64,
)
    requires
        can_register(t, issued_ms),
        issued_ms <= ack_ms,
        (ack_ms as int) < issued_ms as int + ACK_TIMEOUT_MS as int,
    ensures
        ({
            let w = registered_waiter(t, device, issued_ms);
            let t1 = register_model(t, device, issued_ms);
            &&& resolve_result(t1, device, ack_ms) == Some(w.ticket)
            &&& wait_outcome(w, resolve_result(t1, device, ack_ms), ack_ms)
                == WaitOutcome::Resolved
            &&& !resolve_model(t1, device).pending.contains_key(device)
        }),
{
}

/// A waiter that is never completed reports a timeout exactly from its
/// deadline, `ACK_TIMEOUT_MS` after it was registered, and is still waiting
/// before then.
pub proof fn lemma_unanswered_times_out_at_deadline(
    t: TableModel,
    device: u128,
    issued_ms: u64,
    now_ms: u64,
)
    requires
        can_register(t, issued_ms),
    ensures
        ({
            let w = registered_waiter(t, device, issued_ms);
            &&& w.deadline_ms == issued_ms + ACK_TIMEOUT_MS
            &&& (wait_outcome(w, None, now_ms) == WaitOutcome::TimedOut <==> now_ms
                >= w.deadline_ms)
            &&& (now_ms < w.deadline_ms ==> wait_outcome(w, None, now_ms)
                == WaitOutcome::Waiting)
        }),
{
}

/// A second registration for the same device replaces the first: whatever
/// acknowledgment follows completes only the second ticket, so the first
/// waiter never observes success and times out at its own deadline; timing
/// it out leaves the second waiter in place.
pub proof fn lemma_reregister_replaces(
    t: TableModel,
    device: u128,
    first_ms: u64,
    second_ms: u64,
    ack_ms: u64,
    now_ms: u64,
)
    requires
        tickets_issued(t),
        can_register(t, first_ms),
        can_register(register_model(t, device, first_ms), second_ms),
    ensures
        ({
            let w1 = registered_waiter(t, device, first_ms);
            let t1 = register_model(t, device, first_ms);
            let w2 = registered_waiter(t1, device, second_ms);
            let t2 = register_model(t1, device, second_ms);
            let done = resolve_result(t2, device, ack_ms);
            &&& w1.ticket != w2.ticket
            &&& done != Some(w1.ticket)
            &&& wait_outcome(w1, done, now_ms) != WaitOutcome::Resolved
            &&& (wait_outcome(w1, done, now_ms) == WaitOutcome::TimedOut <==> now_ms
                >= w1.deadline_ms)
            &&& time_out_model(t2, w1) == t2
        }),
{
}

/// Resolving twice completes at most once: the second call finds no entry.
pub proof fn lemma_resolve_single_use(t: TableModel, device: u128, now_ms: u64, later_ms: u64)
    ensures
        resolve_result(resolve_model(t, device), device, later_ms) is None,
        resolve_model(resolve_model(t, device), device) == resolve_model(t, device),
{
    assert(resolve_model(resolve_model(t, device), device).pending =~= resolve_model(
        t,
        device,
    ).pending);
}

/// An acknowledgment from one device never completes the waiter of another:
/// the ticket it completes, if any, is its own device's.
pub proof fn lemma_ack_completes_only_own_waiter(t: TableModel, d: u128, other: u128, now_ms: u64)
    requires
        tickets_issued(t),
        t.pending.contains_key(d),
        other != d,
    ensures
        resolve_result(t, other, now_ms) != Some(t.pending[d].ticket),
        resolve_model(t, other).pending.contains_key(d),
        resolve_model(t, other).pending[d] == t.pending[d],
{
    if t.pending.contains_key(other) {
        assert(t.pending[other].ticket != t.pending[d].ticket);
    }
}

/// One track of outstanding waiters, keyed by device.
pub struct WaiterTable {
    pending: HashMap<u128, Pending>,
    next_ticket: u64,
}

impl View for WaiterTable {
    type V = TableModel;

    closed spec fn view(&self) -> TableModel {
        TableModel { pending: self.pending@, next_ticket: self.next_ticket }
    }
}

impl WaiterTable {
    pub open spec fn wf(&self) -> bool {
        tickets_issued(self@)
    }

    pub fn new() -> (r: Self)
        ensures
            r.wf(),
            r@.pending == Map::<u128, Pending>::empty(),
            r@.next_ticket == 0,
    {
        WaiterTable { pending: HashMap::new(), next_ticket: 0 }
    }

    /// The ticket that the next `register` will hand out.
    pub fn next_ticket(&self) -> (r: u64)
        ensures
            r == self@.next_ticket,
    {
        self.next_ticket
    }

    /// Registers a waiter for `device`, replacing any outstanding one, with a
    /// deadline `ACK_TIMEOUT_MS` after `now_ms`.
    pub fn register(&mut self, device: u128, now_ms: u64) -> (w: Waiter)
        requires
            old(self).wf(),
            can_register(old(self)@, now_ms),
        ensures
            final(self).wf(),
            w == registered_waiter(old(self)@, device, now_ms),
            final(self)@ == register_model(old(self)@, device, now_ms),
    {
        let ghost before = self@;
        let w = Waiter { device, ticket: self.next_ticket, deadline_ms: now_ms + ACK_TIMEOUT_MS };
        self.pending.insert(device, Pending { ticket: w.ticket, deadline_ms: w.deadline_ms });
        self.next_ticket = self.next_ticket + 1;
        assert forall|d: u128| #[trigger] self@.pending.contains_key(d) implies self@.pending[d].ticket
            < self@.next_ticket by {
            if d != device {
                assert(before.pending.contains_key(d));
            }
        }
        assert forall|d1: u128, d2: u128|
            #[trigger] self@.pending.contains_key(d1) && #[trigger] self@.pending.contains_key(d2)
                && d1 != d2 implies self@.pending[d1].ticket != self@.pending[d2].ticket by {
            if d1 != device {
                assert(before.pending.contains_key(d1));
            }
            if d2 != device {
                assert(before.pending.contains_key(d2));
            }
        }
        w
    }

    /// Handles an acknowledgment from `device`: completes and removes its
    /// waiter. An entry whose deadline has passed is removed without being
    /// completed; with no entry this does nothing.
    pub fn resolve(&mut self, device: u128, now_ms: u64) -> (r: Option<u64>)
        requires
            old(self).wf(),
        ensures
            final(self).wf(),
            r == resolve_result(old(self)@, device, now_ms),
            final(self)@ == resolve_model(old(self)@, device),
    {
        match self.pending.remove(&device) {
            Some(p) => {
                if now_ms < p.deadline_ms {
                    Some(p.ticket)
                } else {
                    None
                }
            },
            None => None,
        }
    }

    /// Removes `w`'s entry once it has timed out, leaving a waiter that
    /// replaced it in place. Returns whether an entry was removed.
    pub fn time_out(&mut self, w: &Waiter) -> (r: bool)
        requires
            old(self).wf(),
        ensures
            final(self).wf(),
            final(self)@ == time_out_model(old(self)@, *w),
            r == (old(self)@.pending.contains_key(w.device) && old(self)@.pending[w.device].ticket
                == w.ticket),
    {
        let same = match self.pending.get(&w.device) {
            Some(p) => p.ticket == w.ticket,
            None => false,
        };
        let ghost before = self@;
        if same {
            self.pending.remove(&w.device);
            assert forall|d: u128| #[trigger] self@.pending.contains_key(d) implies self@.pending[
                d].ticket < self@.next_ticket by {
                assert(before.pending.contains_key(d));
            }
            assert forall|d1: u128, d2: u128|
                #[trigger] self@.pending.contains_key(d1) && #[trigger] self@.pending.contains_key(d2)
                    && d1 != d2 implies self@.pending[d1].ticket != self@.pending[d2].ticket by {
                assert(before.pending.contains_key(d1));
                assert(before.pending.contains_key(d2));
            }
        }
        same
    }
}

/// What waiter `w` observes at `now_ms`, given the ticket completed for it (if any).
pub fn wait_status(w: &Waiter, completed: Option<u64>, now_ms: u64) -> (r: WaitOutcome)
    ensures
        r == wait_outcome(*w, completed, now_ms),
{
    let hit = match completed {
        Some(t) => t == w.ticket,
        None => false,
    };
    if hit && now_ms < w.deadline_ms {
        WaitOutcome::Resolved
    } else if now_ms >= w.deadline_ms {
        WaitOutcome::TimedOut
    } else {
        WaitOutcome::Waiting
    }
}

} // verus!
