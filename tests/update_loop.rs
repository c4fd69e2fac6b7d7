use mullvad_discord::{
    Action, DaemonState, EndpointInfo, ReconcilerState, Step, UpdateLoop, Wake, STEADY_POLL_SECS,
};

fn relay() -> EndpointInfo {
    EndpointInfo { endpoint: "wireguard 10.0.0.1:51820".to_string(), location: None }
}

#[test]
fn first_wait_is_immediate() {
    let l = UpdateLoop::new();
    assert_eq!(l.poll_interval, 0);
    assert!(!l.fetching);
    assert!(matches!(l.rpc.state, ReconcilerState::Inactive));
}

#[test]
fn timer_asks_once_then_reconciles_answer() {
    let mut l = UpdateLoop::new();
    let step = l.on_wake(Wake::TimerElapsed, 20);
    assert!(matches!(step, Step::FetchState));
    assert!(l.fetching);
    assert!(matches!(l.rpc.state, ReconcilerState::Inactive));
    assert_eq!(l.poll_interval, 0);

    let action = l.on_poll_response(Some(DaemonState::Connected { relay_info: Some(relay()) }), 21);
    match action {
        Action::SetDisplay(e, t) => {
            assert!(e == relay());
            assert_eq!(t, 21);
        }
        other => panic!("expected a set, got {:?}", other),
    }
    assert!(!l.fetching);
    assert_eq!(l.poll_interval, STEADY_POLL_SECS);
    assert_eq!(STEADY_POLL_SECS, 10);
}

#[test]
fn failed_poll_changes_nothing_but_the_interval() {
    let mut l = UpdateLoop::new();
    l.on_wake(Wake::TimerElapsed, 1);
    let action = l.on_poll_response(None, 2);
    assert!(matches!(action, Action::NoOp));
    assert!(matches!(l.rpc.state, ReconcilerState::Inactive));
    assert_eq!(l.poll_interval, 10);
    assert!(!l.fetching);
}

#[test]
fn push_without_tunnel_state_sets_steady_interval() {
    let mut l = UpdateLoop::new();
    let step = l.on_wake(Wake::Pushed(None), 1);
    assert!(matches!(step, Step::Apply(Action::NoOp)));
    assert_eq!(l.poll_interval, 10);
}

#[test]
fn pushed_states_are_reconciled() {
    let mut l = UpdateLoop::new();
    let step = l.on_wake(Wake::Pushed(Some(DaemonState::Connected { relay_info: Some(relay()) })), 5);
    assert!(matches!(step, Step::Apply(Action::SetDisplay(_, 5))));
    let step = l.on_wake(Wake::Pushed(Some(DaemonState::Connected { relay_info: Some(relay()) })), 9);
    assert!(matches!(step, Step::Apply(Action::SetDisplay(_, 5))));
    let step = l.on_wake(Wake::Pushed(Some(DaemonState::Other)), 12);
    assert!(matches!(step, Step::Apply(Action::ClearDisplay)));
    assert!(matches!(l.rpc.state, ReconcilerState::Inactive));
}

#[test]
fn shutdown_leaves_state_alone() {
    let mut l = UpdateLoop::new();
    l.on_wake(Wake::Pushed(Some(DaemonState::Connected { relay_info: Some(relay()) })), 5);
    let step = l.on_wake(Wake::Shutdown, 6);
    assert!(matches!(step, Step::Stop));
    match &l.rpc.state {
        ReconcilerState::Active(s) => assert_eq!(s.started_at, 5),
        other => panic!("expected an active session, got {:?}", other),
    }
}
