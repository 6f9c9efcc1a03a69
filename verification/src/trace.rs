//! A timed model of whole pinger runs, and the liveness laws proved over it.
//!
//! A run is described by the sequence of race resolutions the task sees, one
//! per loop iteration: the timer fired, a reset was observed, or the mailbox
//! was seen closed. Each iteration arms a fresh window of length `t` at the
//! moment the previous one resolved — recreating the timer is the only
//! cancellation mechanism — so the resolution times follow from the history
//! itself. The model folds the transition table of [`crate::machine`] over
//! such a history and yields the timestamped events the owner observes.

use vstd::prelude::*;
use crate::machine::{step_event, step_state, Event, PingerState, Wake};

verus! {

/// What resolved one iteration's race, on the timeline of a run.
pub enum Cue {
    /// Nothing arrived for a whole window: the timer fired at its deadline.
    Fire,
    /// A reset signal was observed at time `at`, inside the current window.
    Rearm { at: int },
    /// The reset mailbox was seen closed at time `at`, inside the current
    /// window: the owner dropped the handle.
    Close { at: int },
}

/// One timestamped event emission, as the owner observes it.
pub struct Emission {
    pub at: int,
    pub event: Event,
}

/// A live task between iterations: its machine state, and the moment its
/// current window was armed. The timer fires at `since + t`.
pub struct Arming {
    pub state: PingerState,
    pub since: int,
}

/// A freshly created task: state `SendPing`, window armed at `start`.
pub open spec fn initial_arming(start: int) -> Arming {
    Arming { state: PingerState::SendPing, since: start }
}

/// Which branch of the race a cue resolves.
pub open spec fn cue_wake(c: Cue) -> Wake {
    match c {
        Cue::Fire => Wake::Timeout,
        Cue::Rearm { .. } => Wake::Reset,
        Cue::Close { .. } => Wake::Closed,
    }
}

/// The moment a cue resolves the iteration armed by `a`, with timeout `t`.
pub open spec fn cue_time(t: int, a: Arming, c: Cue) -> int {
    match c {
        Cue::Fire => a.since + t,
        Cue::Rearm { at } => at,
        Cue::Close { at } => at,
    }
}

/// Whether a cue can resolve the iteration armed by `a`: a reset or a close
/// is observed only before the window's own deadline — at the deadline the
/// timer has already won the race.
pub open spec fn cue_valid(t: int, a: Arming, c: Cue) -> bool {
    match c {
        Cue::Fire => true,
        Cue::Rearm { at } => a.since <= at && at < a.since + t,
        Cue::Close { at } => a.since <= at && at < a.since + t,
    }
}

/// The events of one step: none, or one, stamped with the step's moment.
pub open spec fn step_emits(t: int, a: Arming, c: Cue) -> Seq<Emission> {
    match step_event(a.state, cue_wake(c)) {
        Some(e) => seq![Emission { at: cue_time(t, a, c), event: e }],
        None => Seq::empty(),
    }
}

/// The arming after one step, or `None` if the task terminated on it.
pub open spec fn step_arming(t: int, a: Arming, c: Cue) -> Option<Arming> {
    match step_state(a.state, cue_wake(c)) {
        Some(s) => Some(Arming { state: s, since: cue_time(t, a, c) }),
        None => None,
    }
}

/// Whether `cues` is a possible resolution history from arming `a`: every
/// cue is valid in the window it resolves, and no cue follows the task's
/// termination.
pub open spec fn run_valid(t: int, a: Arming, cues: Seq<Cue>) -> bool
    decreases cues.len(),
{
    cues.len() == 0 || {
        &&& cue_valid(t, a, cues[0])
        &&& match step_arming(t, a, cues[0]) {
            Some(a2) => run_valid(t, a2, cues.drop_first()),
            None => cues.len() == 1,
        }
    }
}

/// Every event the task emits over `cues`, in order, with its time.
pub open spec fn run_emits(t: int, a: Arming, cues: Seq<Cue>) -> Seq<Emission>
    decreases cues.len(),
{
    if cues.len() == 0 {
        Seq::empty()
    } else {
        step_emits(t, a, cues[0]) + match step_arming(t, a, cues[0]) {
            Some(a2) => run_emits(t, a2, cues.drop_first()),
            None => Seq::empty(),
        }
    }
}

/// The task's arming after `cues`, or `None` once it has terminated.
pub open spec fn run_next(t: int, a: Arming, cues: Seq<Cue>) -> Option<Arming>
    decreases cues.len(),
{
    if cues.len() == 0 {
        Some(a)
    } else {
        match step_arming(t, a, cues[0]) {
            Some(a2) => run_next(t, a2, cues.drop_first()),
            None => None,
        }
    }
}

/// With timeout `t` and no resets at all, the owner observes exactly two
/// events: `SendPing` at time `t`, then `Disconnect` at time `2t`, and the
/// task terminates — the stream ends with nothing further.
pub proof fn lemma_no_reset_times_out(t: int)
    requires
        t > 0,
    ensures
        run_valid(t, initial_arming(0), seq![Cue::Fire, Cue::Fire]),
        run_emits(t, initial_arming(0), seq![Cue::Fire, Cue::Fire]) == seq![
            (Emission { at: t, event: Event::SendPing }),
            (Emission { at: 2 * t, event: Event::Disconnect }),
        ],
        run_next(t, initial_arming(0), seq![Cue::Fire, Cue::Fire]) is None,
{
    reveal_with_fuel(run_valid, 3);
    reveal_with_fuel(run_emits, 3);
    reveal_with_fuel(run_next, 3);
    let cues = seq![Cue::Fire, Cue::Fire];
    let a0 = initial_arming(0);
    let a1 = Arming { state: PingerState::ExpectPong, since: t };
    assert(cues.drop_first() =~= seq![Cue::Fire]);
    assert(seq![Cue::Fire].drop_first() =~= Seq::<Cue>::empty());
    assert(step_arming(t, a0, Cue::Fire) == Some(a1));
    assert(run_emits(t, a1, seq![Cue::Fire]) =~= seq![
        (Emission { at: 2 * t, event: Event::Disconnect }),
    ]);
    assert(run_emits(t, a0, cues) =~= seq![
        (Emission { at: t, event: Event::SendPing }),
        (Emission { at: 2 * t, event: Event::Disconnect }),
    ]);
}

/// A reset observed at `r` while still in `SendPing` restarts the full
/// window: no event fires at the original deadline `t`; the first event is a
/// `SendPing` a whole `t` after the reset.
pub proof fn lemma_reset_rearms_window(t: int, r: int)
    requires
        t > 0,
        0 <= r < t,
    ensures
        run_valid(t, initial_arming(0), seq![Cue::Rearm { at: r }, Cue::Fire]),
        run_emits(t, initial_arming(0), seq![Cue::Rearm { at: r }, Cue::Fire]) == seq![
            (Emission { at: r + t, event: Event::SendPing }),
        ],
        r > 0 ==> run_emits(t, initial_arming(0), seq![Cue::Rearm { at: r }, Cue::Fire])[0].at
            > t,
        run_next(t, initial_arming(0), seq![Cue::Rearm { at: r }, Cue::Fire]) == Some(
            (Arming { state: PingerState::ExpectPong, since: r + t }),
        ),
{
    reveal_with_fuel(run_valid, 3);
    reveal_with_fuel(run_emits, 3);
    reveal_with_fuel(run_next, 3);
    let cues = seq![Cue::Rearm { at: r }, Cue::Fire];
    let a0 = initial_arming(0);
    let a1 = Arming { state: PingerState::SendPing, since: r };
    assert(cues[0] == Cue::Rearm { at: r });
    assert(cues.drop_first() =~= seq![Cue::Fire]);
    assert(seq![Cue::Fire].drop_first() =~= Seq::<Cue>::empty());
    assert(step_arming(t, a0, cues[0]) == Some(a1));
    assert(run_emits(t, a1, seq![Cue::Fire]) =~= seq![
        (Emission { at: r + t, event: Event::SendPing }),
    ]);
    assert(run_emits(t, a0, cues) =~= seq![(Emission { at: r + t, event: Event::SendPing })]);
}

/// A reset observed at `r` while in `ExpectPong` — after one `SendPing` has
/// fired at `t` — cancels the pending `Disconnect`: the state returns to
/// `SendPing`, and with no further reset the next event is another
/// `SendPing` at `r + t`, not a `Disconnect`.
pub proof fn lemma_reset_cancels_disconnect(t: int, r: int)
    requires
        t > 0,
        t <= r < 2 * t,
    ensures
        run_valid(t, initial_arming(0), seq![Cue::Fire, Cue::Rearm { at: r }, Cue::Fire]),
        run_emits(t, initial_arming(0), seq![Cue::Fire, Cue::Rearm { at: r }, Cue::Fire])
            == seq![
            (Emission { at: t, event: Event::SendPing }),
            (Emission { at: r + t, event: Event::SendPing }),
        ],
        run_next(t, initial_arming(0), seq![Cue::Fire, Cue::Rearm { at: r }, Cue::Fire]) == Some(
            (Arming { state: PingerState::ExpectPong, since: r + t }),
        ),
{
    reveal_with_fuel(run_valid, 4);
    reveal_with_fuel(run_emits, 4);
    reveal_with_fuel(run_next, 4);
    let cues = seq![Cue::Fire, Cue::Rearm { at: r }, Cue::Fire];
    let a0 = initial_arming(0);
    let a1 = Arming { state: PingerState::ExpectPong, since: t };
    let a2 = Arming { state: PingerState::SendPing, since: r };
    assert(cues[0] == Cue::Fire);
    assert(cues[1] == Cue::Rearm { at: r });
    assert(cues.drop_first() =~= seq![Cue::Rearm { at: r }, Cue::Fire]);
    assert(seq![Cue::Rearm { at: r }, Cue::Fire].drop_first() =~= seq![Cue::Fire]);
    assert(seq![Cue::Fire].drop_first() =~= Seq::<Cue>::empty());
    assert(step_arming(t, a0, cues[0]) == Some(a1));
    assert(step_arming(t, a1, Cue::Rearm { at: r }) == Some(a2));
    assert(run_emits(t, a2, seq![Cue::Fire]) =~= seq![
        (Emission { at: r + t, event: Event::SendPing }),
    ]);
    assert(run_emits(t, a1, seq![Cue::Rearm { at: r }, Cue::Fire]) =~= seq![
        (Emission { at: r + t, event: Event::SendPing }),
    ]);
    assert(run_emits(t, a0, cues) =~= seq![
        (Emission { at: t, event: Event::SendPing }),
        (Emission { at: r + t, event: Event::SendPing }),
    ]);
}

/// Dropping the handle silences the task, wherever a run has got to: if the
/// task is still live after `cues`, closing the mailbox inside the current
/// window terminates it with no further event — in particular with no final
/// `Disconnect` — and the run accepts nothing after that.
pub proof fn lemma_drop_ends_run_silently(t: int, a: Arming, cues: Seq<Cue>, at: int)
    requires
        run_valid(t, a, cues),
        run_next(t, a, cues) matches Some(a2) && a2.since <= at && at < a2.since + t,
    ensures
        run_valid(t, a, cues.push(Cue::Close { at })),
        run_emits(t, a, cues.push(Cue::Close { at })) == run_emits(t, a, cues),
        run_next(t, a, cues.push(Cue::Close { at })) is None,
    decreases cues.len(),
{
    let full = cues.push(Cue::Close { at });
    if cues.len() == 0 {
        assert(full[0] == Cue::Close { at });
        assert(full.drop_first() =~= Seq::<Cue>::empty());
        assert(run_emits(t, a, full) =~= run_emits(t, a, cues));
    } else {
        assert(full[0] == cues[0]);
        match step_arming(t, a, cues[0]) {
            Some(a1) => {
                assert(full.drop_first() =~= cues.drop_first().push(Cue::Close { at }));
                lemma_drop_ends_run_silently(t, a1, cues.drop_first(), at);
                assert(run_emits(t, a, full) == step_emits(t, a, cues[0]) + run_emits(
                    t,
                    a1,
                    full.drop_first(),
                ));
                assert(run_emits(t, a, cues) == step_emits(t, a, cues[0]) + run_emits(
                    t,
                    a1,
                    cues.drop_first(),
                ));
            },
            None => {
                assert(run_next(t, a, cues) is None);
            },
        }
    }
}

/// A `Disconnect` arises only when a whole window passes in `ExpectPong`,
/// and `ExpectPong` itself is entered only when a whole window passes in
/// `SendPing`: two consecutive timeouts, with no reset between them, are the
/// one road to a disconnect.
pub proof fn lemma_disconnect_needs_two_timeouts(s: PingerState, w: Wake)
    ensures
        (step_event(s, w) == Some(Event::Disconnect)) <==> (s is ExpectPong && w is Timeout),
        (step_state(s, w) == Some(PingerState::ExpectPong)) <==> (s is SendPing && w is Timeout),
{
}

/// The concrete thirty-second scenario: created at 0 with `t = 30`, a first
/// quiet window yields `SendPing` at 30; a reset at 31 rearms; the next
/// quiet window yields `SendPing` again at 61, not `Disconnect`; a further
/// quiet window yields `Disconnect` at 91 and the stream closes.
pub proof fn lemma_thirty_second_scenario()
    ensures
        run_valid(
            30,
            initial_arming(0),
            seq![Cue::Fire, Cue::Rearm { at: 31 }, Cue::Fire, Cue::Fire],
        ),
        run_emits(
            30,
            initial_arming(0),
            seq![Cue::Fire, Cue::Rearm { at: 31 }, Cue::Fire, Cue::Fire],
        ) == seq![
            (Emission { at: 30, event: Event::SendPing }),
            (Emission { at: 61, event: Event::SendPing }),
            (Emission { at: 91, event: Event::Disconnect }),
        ],
        run_next(
            30,
            initial_arming(0),
            seq![Cue::Fire, Cue::Rearm { at: 31 }, Cue::Fire, Cue::Fire],
        ) is None,
{
    reveal_with_fuel(run_valid, 5);
    reveal_with_fuel(run_emits, 5);
    reveal_with_fuel(run_next, 5);
    let cues = seq![Cue::Fire, Cue::Rearm { at: 31 }, Cue::Fire, Cue::Fire];
    let a0 = initial_arming(0);
    let a1 = Arming { state: PingerState::ExpectPong, since: 30 };
    let a2 = Arming { state: PingerState::SendPing, since: 31 };
    let a3 = Arming { state: PingerState::ExpectPong, since: 61 };
    assert(cues.drop_first() =~= seq![Cue::Rearm { at: 31 }, Cue::Fire, Cue::Fire]);
    assert(seq![Cue::Rearm { at: 31 }, Cue::Fire, Cue::Fire].drop_first() =~= seq![
        Cue::Fire,
        Cue::Fire,
    ]);
    assert(seq![Cue::Fire, Cue::Fire].drop_first() =~= seq![Cue::Fire]);
    assert(seq![Cue::Fire].drop_first() =~= Seq::<Cue>::empty());
    assert(step_arming(30, a0, cues[0]) == Some(a1));
    assert(step_arming(30, a1, Cue::Rearm { at: 31 }) == Some(a2));
    assert(step_arming(30, a2, Cue::Fire) == Some(a3));
    assert(run_emits(30, a3, seq![Cue::Fire]) =~= seq![
        (Emission { at: 91, event: Event::Disconnect }),
    ]);
    assert(run_emits(30, a2, seq![Cue::Fire, Cue::Fire]) =~= seq![
        (Emission { at: 61, event: Event::SendPing }),
        (Emission { at: 91, event: Event::Disconnect }),
    ]);
    assert(run_emits(30, a1, seq![Cue::Rearm { at: 31 }, Cue::Fire, Cue::Fire]) =~= seq![
        (Emission { at: 61, event: Event::SendPing }),
        (Emission { at: 91, event: Event::Disconnect }),
    ]);
    assert(run_emits(30, a0, cues) =~= seq![
        (Emission { at: 30, event: Event::SendPing }),
        (Emission { at: 61, event: Event::SendPing }),
        (Emission { at: 91, event: Event::Disconnect }),
    ]);
}

} // verus!
