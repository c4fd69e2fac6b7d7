use vstd::prelude::*;
use crate::endpoint::{EndpointInfo, same_endpoint};

verus! {

/// The session that is on display: the endpoint, and the moment (seconds
/// since the Unix epoch) at which that endpoint was first seen.
#[derive(Debug)]
pub struct ActiveSession {
    pub started_at: u64,
    pub endpoint_info: EndpointInfo,
}

impl ActiveSession {
    /// A session through `relay_info` that starts at `now`.
    pub fn start_now(relay_info: EndpointInfo, now: u64) -> (r: ActiveSession)
        ensures
            r == (ActiveSession { started_at: now, endpoint_info: relay_info }),
    {
        ActiveSession { started_at: now, endpoint_info: relay_info }
    }
}

impl Clone for ActiveSession {
    fn clone(&self) -> (r: ActiveSession)
        ensures
            r == *self,
    {
        ActiveSession { started_at: self.started_at, endpoint_info: self.endpoint_info.clone() }
    }
}

/// What the presence service is believed to show.
#[derive(Debug)]
pub enum ReconcilerState {
    Inactive,
    Active(ActiveSession),
}

impl Clone for ReconcilerState {
    fn clone(&self) -> (r: ReconcilerState)
        ensures
            r == *self,
    {
        match self {
            ReconcilerState::Inactive => ReconcilerState::Inactive,
            ReconcilerState::Active(s) => ReconcilerState::Active(s.clone()),
        }
    }
}

/// One report of the tunnel, reduced to what the display depends on.
#[derive(Debug)]
pub enum TunnelObservation {
    Connected(EndpointInfo),
    NotConnected,
}

/// The tunnel state as the daemon reports it: connected, with or without the
/// relay's details, or any other state (connecting, disconnecting,
/// disconnected, failed, or none given).
#[derive(Debug)]
pub enum DaemonState {
    Connected { relay_info: Option<EndpointInfo> },
    Other,
}

/// What the presence service must be told.
#[derive(Debug)]
pub enum Action {
    NoOp,
    SetDisplay(EndpointInfo, u64),
    ClearDisplay,
}

/// Only a connected tunnel whose relay is known counts as connected.
pub open spec fn observation_of(state: DaemonState) -> TunnelObservation {
    match state {
        DaemonState::Connected { relay_info: Some(e) } => TunnelObservation::Connected(e),
        _ => TunnelObservation::NotConnected,
    }
}

/// The session after seeing endpoint `e` at `now`: the current one if it runs
/// through the same endpoint, else one that starts at `now`.
pub open spec fn next_session(current: ReconcilerState, e: EndpointInfo, now: u64) -> ActiveSession {
    match current {
        ReconcilerState::Active(s) => if same_endpoint(&s.endpoint_info, &e) {
            s
        } else {
            ActiveSession { started_at: now, endpoint_info: e }
        },
        ReconcilerState::Inactive => ActiveSession { started_at: now, endpoint_info: e },
    }
}

/// The next state and the action for observation `obs` at `now`.
pub open spec fn reconcile_spec(current: ReconcilerState, obs: TunnelObservation, now: u64) -> (
    ReconcilerState,
    Action,
) {
    match obs {
        TunnelObservation::Connected(e) => {
            let s = next_session(current, e, now);
            (ReconcilerState::Active(s), Action::SetDisplay(s.endpoint_info, s.started_at))
        },
        TunnelObservation::NotConnected => match current {
            ReconcilerState::Active(_) => (ReconcilerState::Inactive, Action::ClearDisplay),
            ReconcilerState::Inactive => (ReconcilerState::Inactive, Action::NoOp),
        },
    }
}

/// Reduces a daemon report to an observation.
pub fn observe(state: &DaemonState) -> (r: TunnelObservation)
    ensures
        r == observation_of(*state),
{
    match state {
        DaemonState::Connected { relay_info: Some(e) } => TunnelObservation::Connected(e.clone()),
        _ => TunnelObservation::NotConnected,
    }
}

impl ReconcilerState {
    /// The session to show once `relay_info` has been seen at `now`.
    pub fn update_relay(&self, relay_info: EndpointInfo, now: u64) -> (r: ActiveSession)
        ensures
            r == next_session(*self, relay_info, now),
    {
        match self {
            ReconcilerState::Active(s) => {
                if s.endpoint_info == relay_info {
                    s.clone()
                } else {
                    ActiveSession::start_now(relay_info, now)
                }
            },
            ReconcilerState::Inactive => ActiveSession::start_now(relay_info, now),
        }
    }
}

/// One step of the reconciler: from the current state and an observation made
/// at `now`, the next state and what to tell the presence service.
pub fn reconcile(current: &ReconcilerState, obs: TunnelObservation, now: u64) -> (r: (
    ReconcilerState,
    Action,
))
    ensures
        r == reconcile_spec(*current, obs, now),
{
    match obs {
        TunnelObservation::Connected(e) => {
            let s = current.update_relay(e, now);
            let action = Action::SetDisplay(s.endpoint_info.clone(), s.started_at);
            (ReconcilerState::Active(s), action)
        },
        TunnelObservation::NotConnected => match current {
            ReconcilerState::Active(_) => (ReconcilerState::Inactive, Action::ClearDisplay),
            ReconcilerState::Inactive => (ReconcilerState::Inactive, Action::NoOp),
        },
    }
}

/// Holds what the presence service is believed to show, and decides what it
/// must be told as reports of the tunnel come in.
#[derive(Debug)]
pub struct Rpc {
    pub state: ReconcilerState,
}

impl Rpc {
    /// Nothing is on display yet.
    pub fn new() -> (r: Rpc)
        ensures
            r.state is Inactive,
    {
        Rpc { state: ReconcilerState::Inactive }
    }

    /// Takes in the daemon's report `tunnel_state`, made at `now`, and returns
    /// what the presence service must be told.
    pub fn update_tunnel_state(&mut self, tunnel_state: &DaemonState, now: u64) -> (r: Action)
        ensures
            (final(self).state, r) == reconcile_spec(old(self).state, observation_of(*tunnel_state), now),
    {
        let obs = observe(tunnel_state);
        let (next, action) = reconcile(&self.state, obs, now);
        self.state = next;
        action
    }
}

/// The state after observations `obs`, each with the moment it was made, are
/// taken in order from `current`.
pub open spec fn replay(current: ReconcilerState, obs: Seq<(TunnelObservation, u64)>) -> ReconcilerState
    decreases obs.len(),
{
    if obs.len() == 0 {
        current
    } else {
        replay(reconcile_spec(current, obs[0].0, obs[0].1).0, obs.drop_first())
    }
}

/// The same endpoint seen at each of the moments `times`.
pub open spec fn repeated_connection(e: EndpointInfo, times: Seq<u64>) -> Seq<(TunnelObservation, u64)> {
    times.map_values(|t: u64| (TunnelObservation::Connected(e), t))
}

/// Seeing the session's own endpoint again changes nothing.
proof fn lemma_repeat_keeps_session(s: ActiveSession, e: EndpointInfo, times: Seq<u64>)
    requires
        same_endpoint(&s.endpoint_info, &e),
    ensures
        replay(ReconcilerState::Active(s), repeated_connection(e, times)) == ReconcilerState::Active(s),
    decreases times.len(),
{
    if times.len() > 0 {
        assert(repeated_connection(e, times).drop_first() =~= repeated_connection(e, times.drop_first()));
        lemma_repeat_keeps_session(s, e, times.drop_first());
    }
}

/// However often a connection through the same endpoint is seen again, the
/// session keeps the start time that its first sighting gave it.
pub proof fn lemma_no_spurious_reset(start: ReconcilerState, e: EndpointInfo, times: Seq<u64>)
    requires
        times.len() >= 1,
    ensures
        ({
            let first = reconcile_spec(start, TunnelObservation::Connected(e), times[0]).0;
            &&& first is Active
            &&& replay(start, repeated_connection(e, times)) == first
        }),
{
    let first = reconcile_spec(start, TunnelObservation::Connected(e), times[0]).0;
    let s = next_session(start, e, times[0]);
    assert(same_endpoint(&s.endpoint_info, &e));
    assert(repeated_connection(e, times).drop_first() =~= repeated_connection(e, times.drop_first()));
    lemma_repeat_keeps_session(s, e, times.drop_first());
}

/// A connection through another endpoint starts a new session at the moment
/// it is seen, which is no earlier than the old start when the clock has not
/// gone back.
pub proof fn lemma_reset_on_endpoint_change(s: ActiveSession, e1: EndpointInfo, now: u64)
    requires
        !same_endpoint(&e1, &s.endpoint_info),
        now >= s.started_at,
    ensures
        ({
            let next = reconcile_spec(ReconcilerState::Active(s), TunnelObservation::Connected(e1), now).0;
            &&& next == ReconcilerState::Active(ActiveSession { started_at: now, endpoint_info: e1 })
            &&& next->Active_0.started_at >= s.started_at
        }),
{
}

/// Losing a tunnel that is not on display asks for nothing and shows nothing.
pub proof fn lemma_idempotent_clear(now: u64)
    ensures
        reconcile_spec(ReconcilerState::Inactive, TunnelObservation::NotConnected, now)
            == (ReconcilerState::Inactive, Action::NoOp),
{
}

/// The display is never cleared twice without a set in between: the step
/// after a clear never asks for another.
pub proof fn lemma_no_double_clear(
    current: ReconcilerState,
    first: TunnelObservation,
    second: TunnelObservation,
    t1: u64,
    t2: u64,
)
    requires
        reconcile_spec(current, first, t1).1 is ClearDisplay,
    ensures
        reconcile_spec(reconcile_spec(current, first, t1).0, second, t2).1 !is ClearDisplay,
{
}

/// One for a rule that applies, zero for one that does not.
pub open spec fn one_if(b: bool) -> int {
    if b {
        1
    } else {
        0
    }
}

/// Every state meets every observation under exactly one of five rules: a
/// first connection starts a session, one through another endpoint replaces
/// it, one through the same endpoint re-sends it unchanged, losing the tunnel
/// clears an active display, and losing it when nothing is shown does nothing.
/// The step gives that rule's state and action.
pub proof fn lemma_transition_complete(current: ReconcilerState, obs: TunnelObservation, now: u64)
    ensures
        ({
            let (next, action) = reconcile_spec(current, obs, now);
            let starts = obs is Connected && current is Inactive;
            let switches = obs is Connected && current is Active && !same_endpoint(
                &current->Active_0.endpoint_info,
                &obs->Connected_0,
            );
            let repeats = obs is Connected && current is Active && same_endpoint(
                &current->Active_0.endpoint_info,
                &obs->Connected_0,
            );
            let clears = obs is NotConnected && current is Active;
            let idles = obs is NotConnected && current is Inactive;
            &&& one_if(starts) + one_if(switches) + one_if(repeats) + one_if(clears) + one_if(idles) == 1
            &&& starts ==> next == ReconcilerState::Active(
                ActiveSession { started_at: now, endpoint_info: obs->Connected_0 },
            ) && action == Action::SetDisplay(obs->Connected_0, now)
            &&& switches ==> next == ReconcilerState::Active(
                ActiveSession { started_at: now, endpoint_info: obs->Connected_0 },
            ) && action == Action::SetDisplay(obs->Connected_0, now)
            &&& repeats ==> next == current && action == Action::SetDisplay(
                current->Active_0.endpoint_info,
                current->Active_0.started_at,
            )
            &&& clears ==> next == ReconcilerState::Inactive && action == Action::ClearDisplay
            &&& idles ==> next == ReconcilerState::Inactive && action == Action::NoOp
        }),
{
}

} // verus!
