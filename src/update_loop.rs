use vstd::prelude::*;
use crate::reconciler::{
    observation_of, reconcile_spec, Action, DaemonState, ReconcilerState, Rpc,
};

verus! {

/// Seconds to wait for a pushed event before polling, from the second wait on.
pub const STEADY_POLL_SECS: u64 = 10;

/// What ended one wait of the loop.
#[derive(Debug)]
pub enum Wake {
    /// The daemon's event stream yielded. `None` stands for anything that
    /// carries no tunnel state: another kind of event, a transport error, or
    /// the end of the stream.
    Pushed(Option<DaemonState>),
    /// The poll timer ran out first.
    TimerElapsed,
    /// The process is shutting down.
    Shutdown,
}

/// What the loop must do next.
#[derive(Debug)]
pub enum Step {
    /// Ask the daemon for its current tunnel state and hand the answer to
    /// `on_poll_response`.
    FetchState,
    /// Carry out this action on the presence service.
    Apply(Action),
    /// Leave the loop.
    Stop,
}

/// The decisions of the loop that feeds the reconciler: it races the event
/// stream against a poll timer, and fetches the state itself when the timer
/// wins.
#[derive(Debug)]
pub struct UpdateLoop {
    pub rpc: Rpc,
    /// Seconds of the next wait for a pushed event.
    pub poll_interval: u64,
    /// A state request is out and its answer has not been handed in.
    pub fetching: bool,
}

/// Reconciles a report if one came; without one, nothing changes.
pub open spec fn absorb(state: ReconcilerState, report: Option<DaemonState>, now: u64) -> (
    ReconcilerState,
    Action,
) {
    match report {
        Some(d) => reconcile_spec(state, observation_of(d), now),
        None => (state, Action::NoOp),
    }
}

/// The loop after it woke by `wake` at `now`, and what it must do.
pub open spec fn wake_spec(l: UpdateLoop, wake: Wake, now: u64) -> (UpdateLoop, Step) {
    match wake {
        Wake::Pushed(report) => {
            let (state, action) = absorb(l.rpc.state, report, now);
            (
                UpdateLoop {
                    rpc: Rpc { state },
                    poll_interval: STEADY_POLL_SECS,
                    fetching: false,
                },
                Step::Apply(action),
            )
        },
        Wake::TimerElapsed => (UpdateLoop { fetching: true, ..l }, Step::FetchState),
        Wake::Shutdown => (l, Step::Stop),
    }
}

/// The loop after the answer `report` to its state request came at `now`,
/// and the action to carry out.
pub open spec fn response_spec(l: UpdateLoop, report: Option<DaemonState>, now: u64) -> (
    UpdateLoop,
    Action,
) {
    let (state, action) = absorb(l.rpc.state, report, now);
    (UpdateLoop { rpc: Rpc { state }, poll_interval: STEADY_POLL_SECS, fetching: false }, action)
}

impl UpdateLoop {
    /// Nothing on display, and a first wait of no length, so that the state
    /// is fetched at once.
    pub fn new() -> (r: UpdateLoop)
        ensures
            r.rpc.state is Inactive,
            r.poll_interval == 0,
            !r.fetching,
    {
        UpdateLoop { rpc: Rpc::new(), poll_interval: 0, fetching: false }
    }

    fn take_report(&mut self, report: Option<DaemonState>, now: u64) -> (r: Action)
        ensures
            (final(self).rpc.state, r) == absorb(old(self).rpc.state, report, now),
            final(self).poll_interval == old(self).poll_interval,
            final(self).fetching == old(self).fetching,
    {
        match report {
            Some(d) => self.rpc.update_tunnel_state(&d, now),
            None => Action::NoOp,
        }
    }

    /// Takes in what ended a wait, at `now`.
    pub fn on_wake(&mut self, wake: Wake, now: u64) -> (r: Step)
        requires
            !old(self).fetching,
        ensures
            (*final(self), r) == wake_spec(*old(self), wake, now),
    {
        match wake {
            Wake::Pushed(report) => {
                let action = self.take_report(report, now);
                self.poll_interval = STEADY_POLL_SECS;
                Step::Apply(action)
            },
            Wake::TimerElapsed => {
                self.fetching = true;
                Step::FetchState
            },
            Wake::Shutdown => Step::Stop,
        }
    }

    /// Takes in the answer to the state request, at `now`; `None` when the
    /// request failed.
    pub fn on_poll_response(&mut self, report: Option<DaemonState>, now: u64) -> (r: Action)
        requires
            old(self).fetching,
        ensures
            (*final(self), r) == response_spec(*old(self), report, now),
    {
        let action = self.take_report(report, now);
        self.poll_interval = STEADY_POLL_SECS;
        self.fetching = false;
        action
    }
}

/// When the timer wins, the loop asks for the state once and waits for that
/// answer alone (a loop with a request out takes no other wake); the answer is
/// reconciled, and only then does the next wait, of the steady length, begin.
pub proof fn lemma_poll_fallback(l: UpdateLoop, report: Option<DaemonState>, now: u64)
    requires
        !l.fetching,
    ensures
        ({
            let (asked, step) = wake_spec(l, Wake::TimerElapsed, now);
            let (answered, action) = response_spec(asked, report, now);
            &&& step is FetchState
            &&& asked.fetching
            &&& asked.rpc == l.rpc
            &&& (answered.rpc.state, action) == absorb(l.rpc.state, report, now)
            &&& !answered.fetching
            &&& answered.poll_interval == STEADY_POLL_SECS
        }),
{
}

} // verus!
