//! Runs of the watch loop: what a sequence of polls and sends does to the
//! record, and how far apart the overlay's showings are over such a run.

use vstd::prelude::*;
use crate::watcher::{
    elapsed, game_for, poll_notifies, polled_game, put_game, shown_after_poll, starts_session,
    GameView, ProcessSnapshot,
};

verus! {

/// One event of the watch loop, at a time `now` in milliseconds.
pub enum WatchEvent {
    /// A poll of a tracked process (`Watcher::record`), with the friendly
    /// name offered and the notification period in seconds.
    Poll { process: ProcessSnapshot, friendly_name: Seq<char>, now: u64, frequency_secs: u64 },
    /// The outcome of sending an overlay text (`after_send`).
    Sent { delivered: bool, now: u64 },
}

/// The state the watch loop carries: the games and when the overlay was last
/// shown.
pub struct WatchState {
    pub games: Seq<GameView>,
    pub last_shown: Option<u64>,
}

/// When an event happens.
pub open spec fn event_time(e: WatchEvent) -> u64 {
    match e {
        WatchEvent::Poll { now, .. } => now,
        WatchEvent::Sent { now, .. } => now,
    }
}

/// The state after one event, as `Watcher::record` and `after_send` state it.
pub open spec fn step(s: WatchState, e: WatchEvent) -> WatchState {
    match e {
        WatchEvent::Poll { process, friendly_name, now, frequency_secs } => {
            let g0 = game_for(s.games, process.name@, friendly_name);
            WatchState {
                games: put_game(s.games, process.name@, polled_game(g0, s.last_shown, process, now, frequency_secs)),
                last_shown: shown_after_poll(g0, s.last_shown, process.pid, now),
            }
        },
        WatchEvent::Sent { delivered, now } => WatchState {
            games: s.games,
            last_shown: if delivered { Some(now) } else { s.last_shown },
        },
    }
}

/// The state after the first `n` events of the run from `s0`.
pub open spec fn state_after(s0: WatchState, events: Seq<WatchEvent>, n: nat) -> WatchState
    decreases n,
{
    if n == 0 {
        s0
    } else {
        step(state_after(s0, events, (n - 1) as nat), events[n - 1])
    }
}

/// Whether event `i` of the run is a poll that hands back an overlay text.
pub open spec fn notifies_at(s0: WatchState, events: Seq<WatchEvent>, i: int) -> bool {
    let s = state_after(s0, events, i as nat);
    match events[i] {
        WatchEvent::Poll { process, friendly_name, now, frequency_secs } =>
            poll_notifies(game_for(s.games, process.name@, friendly_name), s.last_shown, process, now, frequency_secs),
        WatchEvent::Sent { .. } => false,
    }
}

/// Whether event `i` of the run is a poll that starts a session.
pub open spec fn starts_session_at(s0: WatchState, events: Seq<WatchEvent>, i: int) -> bool {
    let s = state_after(s0, events, i as nat);
    match events[i] {
        WatchEvent::Poll { process, friendly_name, .. } =>
            starts_session(game_for(s.games, process.name@, friendly_name), process.pid),
        WatchEvent::Sent { .. } => false,
    }
}

/// The notification period of a poll (none for a send).
pub open spec fn period_secs(e: WatchEvent) -> int {
    match e {
        WatchEvent::Poll { frequency_secs, .. } => frequency_secs as int,
        WatchEvent::Sent { .. } => 0,
    }
}

/// The events `from` to `to` happen at times that never go back.
pub open spec fn times_nondecreasing(events: Seq<WatchEvent>, from: int, to: int) -> bool {
    forall|a: int, b: int| from <= a <= b <= to ==> event_time(events[a]) <= event_time(events[b])
}

/// Once the overlay counts as shown at `t` after event `i`, it counts as
/// shown at some time between `t` and the latest event after every later
/// event.
proof fn last_shown_moves_forward(s0: WatchState, events: Seq<WatchEvent>, i: int, k: int, t: u64)
    requires
        0 <= i < k <= events.len(),
        times_nondecreasing(events, i, k - 1),
        state_after(s0, events, (i + 1) as nat).last_shown == Some(t),
        t <= event_time(events[i]),
    ensures
        state_after(s0, events, k as nat).last_shown matches Some(t2)
            && t <= t2 && t2 <= event_time(events[k - 1]),
    decreases k - i,
{
    if k > i + 1 {
        last_shown_moves_forward(s0, events, i, k - 1, t);
        assert(event_time(events[k - 2]) <= event_time(events[k - 1]));
        assert(state_after(s0, events, k as nat) == step(state_after(s0, events, (k - 1) as nat), events[k - 1]));
    }
}

/// The showings of the overlay are a period apart: when a text was delivered
/// at event `i`, a later poll `j` (times never going back in between) hands
/// back a text only when at least its notification period has passed since.
pub proof fn deliveries_a_period_apart(s0: WatchState, events: Seq<WatchEvent>, i: int, j: int)
    requires
        0 <= i < j < events.len(),
        events[i] matches WatchEvent::Sent { delivered, .. } && delivered,
        times_nondecreasing(events, i, j),
        notifies_at(s0, events, j),
    ensures
        event_time(events[j]) - event_time(events[i]) >= period_secs(events[j]) * 1000,
{
    let t = event_time(events[i]);
    assert(state_after(s0, events, (i + 1) as nat) == step(state_after(s0, events, i as nat), events[i]));
    last_shown_moves_forward(s0, events, i, j, t);
    assert(event_time(events[j - 1]) <= event_time(events[j]));
}

/// A new session holds the overlay back for a whole period: when poll `i`
/// starts a session, no later poll `j` (times never going back in between)
/// within `j`'s notification period of it hands back a text.
pub proof fn new_session_holds_back_overlay(s0: WatchState, events: Seq<WatchEvent>, i: int, j: int)
    requires
        0 <= i < j < events.len(),
        starts_session_at(s0, events, i),
        times_nondecreasing(events, i, j),
        event_time(events[j]) < event_time(events[i]) + period_secs(events[j]) * 1000,
    ensures
        !notifies_at(s0, events, j),
{
    let t = event_time(events[i]);
    assert(state_after(s0, events, (i + 1) as nat) == step(state_after(s0, events, i as nat), events[i]));
    last_shown_moves_forward(s0, events, i, j, t);
    assert(event_time(events[j - 1]) <= event_time(events[j]));
}

} // verus!
