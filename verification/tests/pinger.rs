use pinger::{Event, EventSlot, MsgTarget, Pinger, ResetSlot, DEFAULT_TIMEOUT_SECS};

#[test]
fn two_quiet_windows_ping_then_disconnect() {
    // With no resets: the first timeout asks for a ping, the second declares
    // the peer dead and the task stops.
    let mut p = Pinger::new();
    assert!(p.is_alive());
    assert_eq!(p.on_timeout(), Some(Event::SendPing));
    assert!(p.is_alive());
    assert_eq!(p.on_timeout(), Some(Event::Disconnect));
    assert!(!p.is_alive());
}

#[test]
fn reset_before_first_timeout_rearms() {
    // A reset while still waiting to ping restarts the window: the next
    // timeout still asks for a ping, never a disconnect.
    let mut p = Pinger::new();
    p.on_reset();
    assert!(p.is_alive());
    assert_eq!(p.on_timeout(), Some(Event::SendPing));
}

#[test]
fn reset_while_expecting_pong_cancels_disconnect() {
    // A reset after a ping fired cancels the pending disconnect: the next
    // timeout asks for another ping, and only a further quiet window
    // disconnects.
    let mut p = Pinger::new();
    assert_eq!(p.on_timeout(), Some(Event::SendPing));
    p.on_reset();
    assert!(p.is_alive());
    assert_eq!(p.on_timeout(), Some(Event::SendPing));
    assert_eq!(p.on_timeout(), Some(Event::Disconnect));
    assert!(!p.is_alive());
}

#[test]
fn two_resets_coalesce_to_one() {
    // Sending a second reset while one is pending is absorbed: the task
    // observes exactly one signal.
    let mut s = ResetSlot::new();
    s.send();
    s.send();
    assert!(s.take());
    assert!(!s.take());
}

#[test]
fn take_on_empty_reset_slot_is_empty() {
    let mut s = ResetSlot::new();
    assert!(!s.take());
}

#[test]
fn closed_mailbox_ends_task_silently() {
    // Dropping the handle terminates the task with no event, from either
    // state.
    let mut p = Pinger::new();
    p.on_closed();
    assert!(!p.is_alive());

    let mut q = Pinger::new();
    assert_eq!(q.on_timeout(), Some(Event::SendPing));
    q.on_closed();
    assert!(!q.is_alive());
}

#[test]
fn event_slot_holds_at_most_one() {
    // The event mailbox refuses a second undelivered event and never
    // overwrites the first.
    let mut s = EventSlot::new();
    assert!(s.try_put(Event::SendPing));
    assert!(!s.try_put(Event::Disconnect));
    assert_eq!(s.take(), Some(Event::SendPing));
    assert_eq!(s.take(), None);
    assert!(s.try_put(Event::Disconnect));
    assert_eq!(s.take(), Some(Event::Disconnect));
}

#[test]
fn thirty_second_scenario() {
    // T = 30s. t=0 create. t=30: SendPing. t=31: owner resets. t=61:
    // SendPing again, not Disconnect. t=91, still quiet: Disconnect, and
    // the task stops. Here the wall clock is the driving loop's business;
    // the machine sees the same race resolutions in the same order.
    assert_eq!(DEFAULT_TIMEOUT_SECS, 30);
    let mut p = Pinger::new();
    let mut rst = ResetSlot::new();
    let mut seen: Vec<Event> = Vec::new();

    // t=30: the window armed at 0 elapses.
    seen.extend(p.on_timeout());
    // t=31: traffic from the peer; the owner fires a reset.
    rst.send();
    if rst.take() {
        p.on_reset();
    }
    // t=61: the window armed at 31 elapses.
    seen.extend(p.on_timeout());
    // t=91: the window armed at 61 elapses.
    seen.extend(p.on_timeout());

    assert_eq!(seen, vec![Event::SendPing, Event::SendPing, Event::Disconnect]);
    assert!(!p.is_alive());
}

#[test]
fn msg_target_addresses() {
    // The owner may forward a disconnect notice to a display target; the
    // core only carries the address.
    let t = MsgTarget::AllServTabs { serv_name: "example" };
    assert_eq!(format!("{:?}", t), "AllServTabs { serv_name: \"example\" }");
    let many = MsgTarget::MultipleTabs(vec![
        Box::new(MsgTarget::Server { serv_name: "example" }),
        Box::new(MsgTarget::Chan { serv_name: "example", chan_name: "#chan" }),
    ]);
    match many {
        MsgTarget::MultipleTabs(ts) => assert_eq!(ts.len(), 2),
        _ => unreachable!(),
    }
}
