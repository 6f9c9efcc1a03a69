//! Addressing for the status display a connection owner may forward events
//! to.
//!
//! The pinger core never formats or displays anything itself: on `Disconnect`
//! the owner releases the connection and may pass a notice onward to a
//! display collaborator. `MsgTarget` names where such a notice should appear.
//! This crate only carries the address; what a tab is and how a message is
//! drawn belong to the display layer.

use vstd::prelude::*;

verus! {

/// Target of a message shown to the user.
#[derive(Debug)]
pub enum MsgTarget<'a> {
    /// The tab of one server.
    Server { serv_name: &'a str },
    /// The tab of one channel.
    Chan { serv_name: &'a str, chan_name: &'a str },
    /// The tab of one conversation with a user.
    User { serv_name: &'a str, nick: &'a str },
    /// Show the message in all tabs of a server.
    AllServTabs { serv_name: &'a str },
    /// Show the message in all tabs.
    AllTabs,
    /// Show the message in the currently active tab.
    CurrentTab,
    /// Show the message in each of the listed targets.
    MultipleTabs(Vec<Box<MsgTarget<'a>>>),
}

} // verus!
