//! Single-slot, latest-value-wins notification cell.
//!
//! The voltage-monitor interrupt handler publishes the comparator's output
//! bit here; the failover task consumes it.  The slot holds at most one
//! pending value: a new publication overwrites an unconsumed one, so if two
//! interrupts fire before the consumer wakes, only the newest reading is
//! observed.  That is deliberate — only the latest voltage state matters for
//! a failover decision.
//!
//! The cell itself carries no locking: the embedding layer wraps one
//! instance in whatever mutual exclusion its interrupt model needs and
//! provides the consumer's suspension.  This module verifies the value
//! semantics: publication, overwrite, and exactly-once consumption.

use vstd::prelude::*;

verus! {

/// What a publication leaves in the slot: the new value, whatever was
/// pending before (latest-value-wins).
pub open spec fn spec_signal(pending: Option<bool>, low_voltage: bool) -> Option<bool> {
    Some(low_voltage)
}

/// A notification slot holding at most one pending voltage event.
///
/// The view is the pending event: `None` when nothing is waiting,
/// `Some(low_voltage)` when an event has been published and not yet
/// consumed.
pub struct NotifySlot {
    pending: Option<bool>,
}

impl View for NotifySlot {
    type V = Option<bool>;

    closed spec fn view(&self) -> Option<bool> {
        self.pending
    }
}

impl NotifySlot {
    /// Creates an empty slot.
    pub fn new() -> (slot: NotifySlot)
        ensures
            slot@ == Option::<bool>::None,
    {
        NotifySlot { pending: None }
    }

    /// Publishes a voltage event (`true` = voltage below threshold),
    /// overwriting any unconsumed previous event.
    pub fn signal(&mut self, low_voltage: bool)
        ensures
            final(self)@ == spec_signal(old(self)@, low_voltage),
            final(self)@ == Some(low_voltage),
    {
        self.pending = Some(low_voltage);
    }

    /// Consumes the pending event, if any, leaving the slot empty.
    pub fn try_take(&mut self) -> (taken: Option<bool>)
        ensures
            taken == old(self)@,
            final(self)@ == Option::<bool>::None,
    {
        let taken = self.pending;
        self.pending = None;
        taken
    }

    /// Whether an event is pending.
    pub fn is_signaled(&self) -> (signaled: bool)
        ensures
            signaled == (self@ != Option::<bool>::None),
    {
        match self.pending {
            Some(_) => true,
            None => false,
        }
    }
}

/// Latest-value-wins: two publications in a row leave exactly what the
/// second one alone would have left — the earlier event is lost, never
/// queued.
pub proof fn lemma_latest_wins(pending: Option<bool>, first: bool, second: bool)
    ensures
        spec_signal(spec_signal(pending, first), second) == spec_signal(pending, second),
{
}

} // verus!
