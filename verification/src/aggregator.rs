//! The change aggregator: a single-slot trigger that coalesces bursts of
//! settings-change notifications into one pending reconfiguration. Producers
//! post without blocking and a duplicate post is a no-op; the consumer drains
//! the slot and then reads the current settings, so the compiled policy always
//! reflects the state at drain time.

use vstd::prelude::*;

verus! {

/// A capacity-one signal slot carrying no payload: either a reconfiguration
/// is pending or it is not.
pub struct TriggerSlot {
    pending: bool,
}

impl View for TriggerSlot {
    type V = bool;

    closed spec fn view(&self) -> bool {
        self.pending
    }
}

/// The slot state after one notification: a trigger is pending, whether or
/// not one already was.
pub open spec fn notified(pending: bool) -> bool {
    true
}

/// The slot state after `n` notifications.
pub open spec fn notified_n(pending: bool, n: nat) -> bool
    decreases n,
{
    if n == 0 {
        pending
    } else {
        notified(notified_n(pending, (n - 1) as nat))
    }
}

/// The result of a drain: whether a trigger was delivered, and the slot state
/// afterwards (always empty).
pub open spec fn drained(pending: bool) -> (bool, bool) {
    (pending, false)
}

impl TriggerSlot {
    /// A fresh slot with no pending trigger.
    pub fn new() -> (s: Self)
        ensures
            !s@,
    {
        TriggerSlot { pending: false }
    }

    /// The startup slot: it holds the synthetic initial trigger, so the first
    /// policy is compiled without requiring a live settings edit.
    pub fn primed() -> (s: Self)
        ensures
            s@,
    {
        TriggerSlot { pending: true }
    }

    /// A non-blocking notification from one settings-change callback. When a
    /// trigger is already pending the call changes nothing: the pending
    /// trigger already implies that current settings must be re-read.
    pub fn notify(&mut self)
        ensures
            final(self)@ == notified(old(self)@),
    {
        self.pending = true;
    }

    /// The consumer takes the pending trigger, if any, leaving the slot
    /// empty. It reports whether a reconfiguration was due.
    pub fn drain(&mut self) -> (was_pending: bool)
        ensures
            (was_pending, final(self)@) == drained(old(self)@),
    {
        let was_pending = self.pending;
        self.pending = false;
        was_pending
    }
}

/// Any burst of notifications coalesces: however many arrive (at least one)
/// before the consumer drains, the slot holds exactly one trigger; the drain
/// delivers it, and a second drain with no new notification delivers nothing.
/// So a burst causes exactly one reconfiguration cycle.
pub proof fn lemma_burst_coalesces(pending: bool, n: nat)
    requires
        n >= 1,
    ensures
        notified_n(pending, n) == notified(pending),
        drained(notified_n(pending, n)).0,
        !drained(drained(notified_n(pending, n)).1).0,
    decreases n,
{
    if n > 1 {
        lemma_burst_coalesces(pending, (n - 1) as nat);
    }
}

} // verus!
