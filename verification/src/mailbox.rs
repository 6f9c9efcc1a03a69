//! The capacity-one mailbox discipline the pinger's two endpoints follow.
//!
//! Both mailboxes of the design are bounded at one item. The reset mailbox
//! coalesces: sending into a full slot is not an error, it simply leaves the
//! one pending signal in place, because a reset's effect — rearm the timer —
//! is idempotent. The event mailbox refuses a second item instead: at most
//! one undelivered event may exist, and the producer must apply an explicit
//! policy when the slot is full (the task that uses these slots waits for the
//! owner to drain the previous event rather than crash).

use vstd::prelude::*;
use crate::machine::Event;

verus! {

/// A single-slot reset mailbox: holds at most one pending reset signal.
/// Further sends while one is pending are absorbed.
pub struct ResetSlot {
    pending: bool,
}

impl ResetSlot {
    /// Number of reset signals in flight: zero or one, never more.
    pub closed spec fn spec_count(self) -> nat {
        if self.pending {
            1
        } else {
            0
        }
    }

    /// An empty slot: no reset in flight.
    pub fn new() -> (s: ResetSlot)
        ensures
            s.spec_count() == 0,
    {
        ResetSlot { pending: false }
    }

    /// Fire-and-forget send of a reset signal. Never blocks and never fails:
    /// whatever was in flight before, exactly one reset is in flight after.
    pub fn send(&mut self)
        ensures
            final(self).spec_count() == 1,
    {
        self.pending = true;
    }

    /// The task's receive: take the pending reset, if any, emptying the slot.
    pub fn take(&mut self) -> (had: bool)
        ensures
            had == (old(self).spec_count() == 1),
            final(self).spec_count() == 0,
    {
        let had = self.pending;
        self.pending = false;
        had
    }
}

/// A reset already in flight absorbs every further send: however many times
/// the owner calls `reset` before the task consumes one, exactly one signal
/// is pending — one rearm, not several.
pub proof fn lemma_reset_coalesces(s: ResetSlot)
    ensures
        s.spec_count() <= 1,
{
}

/// A single-slot event mailbox: holds at most one undelivered event.
pub struct EventSlot {
    slot: Option<Event>,
}

impl EventSlot {
    /// The undelivered event, if one exists.
    pub closed spec fn spec_item(self) -> Option<Event> {
        self.slot
    }

    /// An empty slot: no event awaiting the owner.
    pub fn new() -> (s: EventSlot)
        ensures
            s.spec_item() is None,
    {
        EventSlot { slot: None }
    }

    /// The task's send: place `ev` in the slot if it is empty. A full slot
    /// refuses the new event and keeps the old one; the caller applies its
    /// saturation policy (wait, or drop and report) — the slot never
    /// overwrites an undelivered event and never holds two.
    pub fn try_put(&mut self, ev: Event) -> (ok: bool)
        ensures
            ok == (old(self).spec_item() is None),
            ok ==> final(self).spec_item() == Some(ev),
            !ok ==> final(self).spec_item() == old(self).spec_item(),
    {
        match self.slot {
            Option::None => {
                self.slot = Some(ev);
                true
            },
            Option::Some(_) => false,
        }
    }

    /// The owner's receive: drain the slot.
    pub fn take(&mut self) -> (ev: Option<Event>)
        ensures
            ev == old(self).spec_item(),
            final(self).spec_item() is None,
    {
        let ev = self.slot;
        self.slot = None;
        ev
    }
}

} // verus!
