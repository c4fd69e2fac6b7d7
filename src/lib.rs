//! Mirrors the connection state of a VPN tunnel daemon into a presence
//! service: a reconciler that decides when the displayed status changes, and
//! the decisions of the loop that feeds it from a push stream and a poll timer.

mod activity;
mod endpoint;
mod reconciler;
mod update_loop;

pub use activity::{activity_state, build_activity, Activity, DETAILS, LARGE_IMAGE, LARGE_TEXT};
pub use endpoint::{EndpointInfo, GeoLocation};
pub use reconciler::{
    observe, reconcile, Action, ActiveSession, DaemonState, ReconcilerState, Rpc, TunnelObservation,
};
pub use update_loop::{Step, UpdateLoop, Wake, STEADY_POLL_SECS};
