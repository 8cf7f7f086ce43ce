//! Connectivity-state coalescing: merges session-credential change events
//! and a periodic liveness probe into one stream of connectivity states,
//! and suppresses a state whose coarse category equals the one most
//! recently delivered, so an observer never sees the same coarse state
//! twice in a row.

use vstd::prelude::*;

verus! {

/// The connectivity state delivered to an observer.
#[derive(Clone, Copy, Debug, PartialEq, Eq, Structural)]
pub enum ConnectionState {
    Disconnected,
    Connecting,
    Connected,
    Syncing,
    Reconnecting { attempt: u32, next_retry_secs: u32 },
}

/// The reduced category used to suppress duplicate notifications: the
/// payload of a reconnecting state does not make it a new category.
#[derive(Clone, Copy, Debug, PartialEq, Eq, Structural)]
pub enum CoarseState {
    Disconnected,
    Connecting,
    Connected,
    Syncing,
    Reconnecting,
}

/// A session-credential change reported by the engine.
#[derive(Clone, Copy, Debug, PartialEq, Eq, Structural)]
pub enum SessionChange {
    TokensRefreshed,
    UnknownToken,
}

/// One input to the monitor: either an immediate credential event or the
/// outcome of the periodic liveness probe.
#[derive(Clone, Copy, Debug, PartialEq, Eq, Structural)]
pub enum ConnectionEvent {
    Session(SessionChange),
    Probe(bool),
}

/// The coarse category of a connectivity state.
pub open spec fn coarse_of(s: ConnectionState) -> CoarseState {
    match s {
        ConnectionState::Disconnected => CoarseState::Disconnected,
        ConnectionState::Connecting => CoarseState::Connecting,
        ConnectionState::Connected => CoarseState::Connected,
        ConnectionState::Syncing => CoarseState::Syncing,
        ConnectionState::Reconnecting { .. } => CoarseState::Reconnecting,
    }
}

/// The state an input maps to, before deduplication: a refreshed token
/// means connected; an invalid token means reconnecting (first attempt,
/// next retry in a few seconds); the probe reports connected or not.
pub open spec fn raw_state_of(ev: ConnectionEvent) -> ConnectionState {
    match ev {
        ConnectionEvent::Session(SessionChange::TokensRefreshed) => ConnectionState::Connected,
        ConnectionEvent::Session(SessionChange::UnknownToken) => ConnectionState::Reconnecting {
            attempt: 1,
            next_retry_secs: 5,
        },
        ConnectionEvent::Probe(true) => ConnectionState::Connected,
        ConnectionEvent::Probe(false) => ConnectionState::Disconnected,
    }
}

/// What one monitor step delivers: the new state exactly when its coarse
/// category differs from the last delivered one, else nothing.
pub open spec fn step_output(last: ConnectionState, ev: ConnectionEvent) -> Option<
    ConnectionState,
> {
    if coarse_of(raw_state_of(ev)) == coarse_of(last) {
        None
    } else {
        Some(raw_state_of(ev))
    }
}

/// The last-delivered state after one step.
pub open spec fn step_last(last: ConnectionState, ev: ConnectionEvent) -> ConnectionState {
    match step_output(last, ev) {
        Some(s) => s,
        None => last,
    }
}

/// Every state the monitor delivers over a whole input sequence.
pub open spec fn run_outputs(last: ConnectionState, evs: Seq<ConnectionEvent>) -> Seq<
    ConnectionState,
>
    decreases evs.len(),
{
    if evs.len() == 0 {
        Seq::empty()
    } else {
        match step_output(last, evs[0]) {
            Some(s) => seq![s] + run_outputs(step_last(last, evs[0]), evs.skip(1)),
            None => run_outputs(last, evs.skip(1)),
        }
    }
}

/// The last-delivered state after a whole input sequence.
pub open spec fn run_last(last: ConnectionState, evs: Seq<ConnectionEvent>) -> ConnectionState
    decreases evs.len(),
{
    if evs.len() == 0 {
        last
    } else {
        run_last(step_last(last, evs[0]), evs.skip(1))
    }
}

/// The callback a consumer registers to follow connectivity changes.
pub trait ConnectionObserver {
    fn on_connection_change(&self, state: ConnectionState);
}

/// Coalesces the two connectivity inputs into one deduplicated stream.
/// The monitor starts disconnected, as the engine does before any input.
pub struct ConnectionMonitor {
    last: ConnectionState,
}

impl ConnectionMonitor {
    /// The state most recently delivered (or the initial state, before any
    /// delivery).
    pub closed spec fn last_state(&self) -> ConnectionState {
        self.last
    }

    pub fn new() -> (m: ConnectionMonitor)
        ensures
            m.last_state() == ConnectionState::Disconnected,
    {
        ConnectionMonitor { last: ConnectionState::Disconnected }
    }

    /// Feeds one input through the monitor: the result is the state to
    /// deliver, or nothing when its coarse category repeats the last
    /// delivered one.
    pub fn step(&mut self, ev: ConnectionEvent) -> (out: Option<ConnectionState>)
        ensures
            out == step_output(old(self).last_state(), ev),
            final(self).last_state() == step_last(old(self).last_state(), ev),
    {
        let cur = match ev {
            ConnectionEvent::Session(SessionChange::TokensRefreshed) => ConnectionState::Connected,
            ConnectionEvent::Session(SessionChange::UnknownToken) => {
                ConnectionState::Reconnecting { attempt: 1, next_retry_secs: 5 }
            },
            ConnectionEvent::Probe(true) => ConnectionState::Connected,
            ConnectionEvent::Probe(false) => ConnectionState::Disconnected,
        };
        let same = coarse_eq(&cur, &self.last);
        if same {
            None
        } else {
            self.last = cur;
            Some(cur)
        }
    }
}

/// Whether two states fall in the same coarse category.
fn coarse_eq(a: &ConnectionState, b: &ConnectionState) -> (r: bool)
    ensures
        r == (coarse_of(*a) == coarse_of(*b)),
{
    match (a, b) {
        (ConnectionState::Disconnected, ConnectionState::Disconnected) => true,
        (ConnectionState::Connecting, ConnectionState::Connecting) => true,
        (ConnectionState::Connected, ConnectionState::Connected) => true,
        (ConnectionState::Syncing, ConnectionState::Syncing) => true,
        (ConnectionState::Reconnecting { .. }, ConnectionState::Reconnecting { .. }) => true,
        _ => false,
    }
}

/// Law: over any input sequence, two consecutive delivered states never
/// share a coarse category (and the first delivery differs from the
/// initial state's category); a state whose coarse category differs from
/// the last delivered one is always delivered (by `step_output`).
pub proof fn lemma_no_duplicate_coarse_delivery(last: ConnectionState, evs: Seq<ConnectionEvent>)
    ensures
        forall|i: int|
            0 <= i < run_outputs(last, evs).len() - 1 ==> coarse_of(
                #[trigger] run_outputs(last, evs)[i + 1],
            ) != coarse_of(run_outputs(last, evs)[i]),
        run_outputs(last, evs).len() > 0 ==> coarse_of(run_outputs(last, evs)[0]) != coarse_of(
            last,
        ),
        run_last(last, evs) == if run_outputs(last, evs).len() > 0 {
            run_outputs(last, evs).last()
        } else {
            last
        },
    decreases evs.len(),
{
    if evs.len() > 0 {
        let next = step_last(last, evs[0]);
        lemma_no_duplicate_coarse_delivery(next, evs.skip(1));
        let outs = run_outputs(last, evs);
        let rest = run_outputs(next, evs.skip(1));
        match step_output(last, evs[0]) {
            Some(s) => {
                assert(outs == seq![s] + rest);
                assert(outs[0] == s);
                assert forall|i: int|
                    0 <= i < outs.len() - 1 implies coarse_of(#[trigger] outs[i + 1]) != coarse_of(
                    outs[i],
                ) by {
                    if i == 0 {
                        if rest.len() > 0 {
                            assert(outs[1] == rest[0]);
                        }
                    } else {
                        assert(outs[i] == rest[i - 1]);
                        assert(outs[i + 1] == rest[i]);
                        assert(coarse_of(rest[(i - 1) + 1]) != coarse_of(rest[i - 1]));
                    }
                }
                if rest.len() > 0 {
                    assert(outs.last() == rest.last());
                }
            },
            None => {
                assert(outs == rest);
                assert(next == last);
            },
        }
    }
}

} // verus!
