//! The liveness state machine that a pinger task steps once per loop
//! iteration.
//!
//! The task races a fixed-interval timer against a reset mailbox; exactly one
//! branch of the race resolves per iteration, and the machine advances by the
//! corresponding step. The transition table is given by [`step_state`] and
//! [`step_event`], which the executable [`Pinger`] methods are proved to
//! follow.

use vstd::prelude::*;

verus! {

/// Default liveness timeout, in seconds.
pub const DEFAULT_TIMEOUT_SECS: u64 = 30;

/// Outward notification produced by the pinger task and consumed once by the
/// connection owner. Never an error value: the owner decides how to act on it.
#[derive(Debug, Clone, Copy, PartialEq, Eq, Structural)]
pub enum Event {
    /// The owner must transmit a keepalive probe to the peer.
    SendPing,
    /// The owner must treat the connection as dead; the task has terminated.
    Disconnect,
}

/// Internal state of the pinger: what the next timer expiry means.
#[derive(Debug, Clone, Copy, PartialEq, Eq, Structural)]
pub enum PingerState {
    /// On timeout, signal a ping; the state moves to `ExpectPong`.
    SendPing,
    /// On timeout, signal a disconnect and terminate.
    ExpectPong,
}

/// What resolved one iteration's race between the timer and the reset mailbox.
#[derive(Debug, Clone, Copy, PartialEq, Eq, Structural)]
pub enum Wake {
    /// The timer elapsed with no reset in the window.
    Timeout,
    /// A reset signal arrived: peer activity was observed.
    Reset,
    /// The reset mailbox closed: the owner dropped the handle.
    Closed,
}

/// Next state of the machine after `w` resolves the race in state `s`;
/// `None` means the task terminates.
pub open spec fn step_state(s: PingerState, w: Wake) -> Option<PingerState> {
    match w {
        Wake::Timeout => match s {
            PingerState::SendPing => Some(PingerState::ExpectPong),
            PingerState::ExpectPong => None,
        },
        Wake::Reset => Some(PingerState::SendPing),
        Wake::Closed => None,
    }
}

/// Event emitted when `w` resolves the race in state `s`; `None` means no
/// event is emitted for this step.
pub open spec fn step_event(s: PingerState, w: Wake) -> Option<Event> {
    match w {
        Wake::Timeout => match s {
            PingerState::SendPing => Some(Event::SendPing),
            PingerState::ExpectPong => Some(Event::Disconnect),
        },
        Wake::Reset => None,
        Wake::Closed => None,
    }
}

/// The state machine a pinger task owns: its current state and whether it is
/// still running. A task drives it with exactly one of [`Pinger::on_timeout`],
/// [`Pinger::on_reset`] or [`Pinger::on_closed`] per loop iteration, according
/// to which branch of its race resolved, and stops once `is_alive` is false.
pub struct Pinger {
    state: PingerState,
    live: bool,
}

impl Pinger {
    /// Whether the machine is still running (the task has not terminated).
    pub closed spec fn spec_live(self) -> bool {
        self.live
    }

    /// Current state of the machine.
    pub closed spec fn spec_state(self) -> PingerState {
        self.state
    }

    /// A fresh machine: running, with a full timeout window ahead of it.
    pub fn new() -> (p: Pinger)
        ensures
            p.spec_live(),
            p.spec_state() == PingerState::SendPing,
    {
        Pinger { state: PingerState::SendPing, live: true }
    }

    /// The timer branch of the race resolved: the full timeout elapsed with
    /// no reset. Returns the event to emit, per the transition table.
    pub fn on_timeout(&mut self) -> (ev: Option<Event>)
        requires
            old(self).spec_live(),
        ensures
            ev == step_event(old(self).spec_state(), Wake::Timeout),
            final(self).spec_live() == (step_state(old(self).spec_state(), Wake::Timeout) is Some),
            step_state(old(self).spec_state(), Wake::Timeout) matches Some(s)
                ==> final(self).spec_state() == s,
    {
        match self.state {
            PingerState::SendPing => {
                self.state = PingerState::ExpectPong;
                Some(Event::SendPing)
            },
            PingerState::ExpectPong => {
                self.live = false;
                Some(Event::Disconnect)
            },
        }
    }

    /// The mailbox branch of the race resolved with a reset signal: peer
    /// activity was observed. No event is emitted; the machine returns to
    /// `SendPing` and the caller rearms the timer.
    pub fn on_reset(&mut self)
        requires
            old(self).spec_live(),
        ensures
            final(self).spec_live(),
            final(self).spec_state() == PingerState::SendPing,
            Some(final(self).spec_state()) == step_state(old(self).spec_state(), Wake::Reset),
    {
        self.state = PingerState::SendPing;
    }

    /// The mailbox branch of the race resolved with a closed mailbox: the
    /// owner dropped the handle. The machine terminates with no event.
    pub fn on_closed(&mut self)
        requires
            old(self).spec_live(),
        ensures
            !final(self).spec_live(),
            step_state(old(self).spec_state(), Wake::Closed) is None,
            step_event(old(self).spec_state(), Wake::Closed) is None,
    {
        self.live = false;
    }

    /// Whether the task should keep looping.
    pub fn is_alive(&self) -> (b: bool)
        ensures
            b == self.spec_live(),
    {
        self.live
    }
}

} // verus!
