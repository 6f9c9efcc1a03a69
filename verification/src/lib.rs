//! Liveness detection for one network connection.
//!
//! A connection owner pairs a handle with a background pinger task. The task
//! races a fixed-interval timer against a single-slot reset mailbox; the
//! owner calls `reset` whenever traffic arrives from the peer. On a first
//! quiet interval the task asks the owner to send a ping; on a second it
//! declares the peer dead and stops.
//!
//! This crate holds the verified core of that design: the state machine the
//! task steps ([`machine`]), the capacity-one mailbox discipline the two
//! endpoints follow ([`mailbox`]), and a timed model of whole task runs with
//! the liveness laws proved over it ([`trace`]). The unverifiable rim — the
//! timer, the channels and the select loop itself — stays with the runtime
//! that drives the task, which owns no decision beyond handing the machine
//! the branch that won each race.

pub mod machine;
pub mod mailbox;
pub mod msg_target;
pub mod trace;

pub use machine::{Event, Pinger, PingerState, Wake, DEFAULT_TIMEOUT_SECS};
pub use mailbox::{EventSlot, ResetSlot};
pub use msg_target::MsgTarget;
