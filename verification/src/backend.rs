use vstd::prelude::*;

use crate::error::IoError;
use crate::firecracker::{is_tunnel_outcome, read_tunnel_reply, tunnel_outcome, tunnel_reply};
use crate::text::opt_view;
use crate::vsock_connect::{
    connect_step, expects, next, ConnectAction, ConnectEvent, ConnectState, RetryPolicy,
};

verus! {

/// The backend that does its socket I/O through Tokio.
#[derive(Debug, Clone, Copy, Default)]
pub struct TokioBackend;

/// The backend that does its socket I/O through async-io.
#[derive(Debug, Clone, Copy, Default)]
pub struct AsyncIoBackend;

impl TokioBackend {
    /// The next step of a non-blocking vsock connection driven through Tokio.
    pub fn vsock_connect_step(state: ConnectState, event: ConnectEvent) -> (r: (
        ConnectState,
        ConnectAction,
    ))
        requires
            expects(state, event),
        ensures
            r == next(RetryPolicy::Tokio, state, event),
    {
        connect_step(RetryPolicy::Tokio, state, event)
    }
}

impl AsyncIoBackend {
    /// The next step of a non-blocking vsock connection driven through async-io.
    pub fn vsock_connect_step(state: ConnectState, event: ConnectEvent) -> (r: (
        ConnectState,
        ConnectAction,
    ))
        requires
            expects(state, event),
        ensures
            r == next(RetryPolicy::AsyncIo, state, event),
    {
        connect_step(RetryPolicy::AsyncIo, state, event)
    }

    /// What connecting to a Firecracker socket ends in, given the first line of Firecracker's
    /// answer to the tunnel request (`None` when none could be read).
    pub fn firecracker_tunnel_outcome(line: Option<&str>) -> (r: Result<(), IoError>)
        ensures
            is_tunnel_outcome(
                r,
                tunnel_reply(opt_view(line)),
                "Could not read Firecracker response"@,
            ),
    {
        tunnel_outcome(read_tunnel_reply(line), "Could not read Firecracker response")
    }
}

} // verus!
