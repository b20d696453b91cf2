use vstd::prelude::*;

verus! {

/* The decisions of a non-blocking vsock connection: open a socket, make it non-blocking,
   start `connect`, then wait until the socket is writable and read its pending error. */

/// How far a non-blocking vsock connection has come.
#[derive(Debug, Clone, Copy, PartialEq, Eq, Structural)]
pub enum ConnectState {
    /// Nothing done yet: the next thing is to open a socket.
    Start,
    /// A socket is open.
    SocketOpen,
    /// The socket is open and non-blocking.
    NonBlocking,
    /// `connect` was started and has not finished yet.
    InProgress,
    /// The connection is established.
    Connected,
    /// The attempt failed.
    Failed,
}

/// What an I/O error means to a retry loop.
#[derive(Debug, Clone, Copy, PartialEq, Eq, Structural)]
pub enum ErrorClass {
    /// The operation would block (`ErrorKind::WouldBlock`).
    WouldBlock,
    /// The operation was interrupted (`ErrorKind::Interrupted`).
    Interrupted,
    /// Any other error.
    Other,
}

/// The OS error that a failed `connect` call left behind.
#[derive(Debug, Clone, Copy, PartialEq, Eq, Structural)]
pub enum ConnectErrno {
    /// `EINPROGRESS`: the connection goes on in the background.
    InProgress,
    /// Another error code.
    Other,
    /// No OS error code could be read.
    Unknown,
}

/// What happened when the step last asked for was carried out.
#[derive(Debug, Clone, Copy, PartialEq, Eq, Structural)]
pub enum ConnectEvent {
    /// `socket(AF_VSOCK, SOCK_STREAM, 0)` returned `fd`.
    SocketCreated { fd: i32 },
    /// `fcntl(F_SETFL, O_NONBLOCK | O_CLOEXEC)` returned `status`.
    FlagsSet { status: i32 },
    /// `connect` returned `status`, leaving the error `errno` where it failed.
    ConnectCalled { status: i32, errno: ConnectErrno },
    /// Reading the pending error would have blocked.
    NotWritable,
    /// `getsockopt(SO_ERROR)` returned `status` and the pending error `error`; `class` is the
    /// class of the I/O error that stands for the failure (the last OS error when `status` is
    /// negative, else `error`).
    ErrorQueried { status: i32, error: i32, class: ErrorClass },
}

/// What to do next.
#[derive(Debug, Clone, Copy, PartialEq, Eq, Structural)]
pub enum ConnectAction {
    /// Make the socket non-blocking and close-on-exec.
    SetFlags,
    /// Start connecting to the address.
    Connect,
    /// Wait until the socket is writable, then read its pending error.
    AwaitWritable,
    /// Hand the connected socket over.
    Finish,
    /// Fail with the last OS error.
    FailWithLastOsError,
    /// Close the socket, then fail with the last OS error.
    CloseThenFailWithLastOsError,
    /// Close the socket, then fail with the error that `connect` left.
    CloseThenFailWithConnectError,
    /// Fail with the OS error `code`.
    FailWithCode { code: i32 },
}

/// Which errors of the pending-error query a backend waits out rather than reports.
#[derive(Debug, Clone, Copy, PartialEq, Eq, Structural)]
pub enum RetryPolicy {
    /// Tokio's readiness guard: only a would-block is waited out.
    Tokio,
    /// async-io's `write_with`: a would-block or an interruption is waited out.
    AsyncIo,
}

/// Whether `policy` waits out an error of class `class` while connecting.
pub open spec fn waits_out(policy: RetryPolicy, class: ErrorClass) -> bool {
    match policy {
        RetryPolicy::Tokio => class == ErrorClass::WouldBlock,
        RetryPolicy::AsyncIo => class == ErrorClass::WouldBlock || class == ErrorClass::Interrupted,
    }
}

/// Whether `event` can follow the step that `state` asked for.
pub open spec fn expects(state: ConnectState, event: ConnectEvent) -> bool {
    match (state, event) {
        (ConnectState::Start, ConnectEvent::SocketCreated { .. }) => true,
        (ConnectState::SocketOpen, ConnectEvent::FlagsSet { .. }) => true,
        (ConnectState::NonBlocking, ConnectEvent::ConnectCalled { .. }) => true,
        (ConnectState::InProgress, ConnectEvent::NotWritable) => true,
        (ConnectState::InProgress, ConnectEvent::ErrorQueried { .. }) => true,
        _ => false,
    }
}

/// The next state and action of a connection in `state` on `event`.
pub open spec fn next(policy: RetryPolicy, state: ConnectState, event: ConnectEvent) -> (
    ConnectState,
    ConnectAction,
) {
    match event {
        ConnectEvent::SocketCreated { fd } => if fd < 0 {
            (ConnectState::Failed, ConnectAction::FailWithLastOsError)
        } else {
            (ConnectState::SocketOpen, ConnectAction::SetFlags)
        },
        ConnectEvent::FlagsSet { status } => if status < 0 {
            (ConnectState::Failed, ConnectAction::CloseThenFailWithLastOsError)
        } else {
            (ConnectState::NonBlocking, ConnectAction::Connect)
        },
        ConnectEvent::ConnectCalled { status, errno } => if status < 0 && errno
            == ConnectErrno::Other {
            (ConnectState::Failed, ConnectAction::CloseThenFailWithConnectError)
        } else {
            (ConnectState::InProgress, ConnectAction::AwaitWritable)
        },
        ConnectEvent::NotWritable => (ConnectState::InProgress, ConnectAction::AwaitWritable),
        ConnectEvent::ErrorQueried { status, error, class } => if status >= 0 && error == 0 {
            (ConnectState::Connected, ConnectAction::Finish)
        } else if waits_out(policy, class) {
            (ConnectState::InProgress, ConnectAction::AwaitWritable)
        } else if status < 0 {
            (ConnectState::Failed, ConnectAction::FailWithLastOsError)
        } else {
            (ConnectState::Failed, ConnectAction::FailWithCode { code: error })
        },
    }
}

/// The next state and action of a connection in `state` on `event`, under `policy`.
pub fn connect_step(policy: RetryPolicy, state: ConnectState, event: ConnectEvent) -> (r: (
    ConnectState,
    ConnectAction,
))
    requires
        expects(state, event),
    ensures
        r == next(policy, state, event),
{
    match event {
        ConnectEvent::SocketCreated { fd } => if fd < 0 {
            (ConnectState::Failed, ConnectAction::FailWithLastOsError)
        } else {
            (ConnectState::SocketOpen, ConnectAction::SetFlags)
        },
        ConnectEvent::FlagsSet { status } => if status < 0 {
            (ConnectState::Failed, ConnectAction::CloseThenFailWithLastOsError)
        } else {
            (ConnectState::NonBlocking, ConnectAction::Connect)
        },
        ConnectEvent::ConnectCalled { status, errno } => {
            let refused = match errno {
                ConnectErrno::Other => true,
                _ => false,
            };
            if status < 0 && refused {
                (ConnectState::Failed, ConnectAction::CloseThenFailWithConnectError)
            } else {
                (ConnectState::InProgress, ConnectAction::AwaitWritable)
            }
        },
        ConnectEvent::NotWritable => (ConnectState::InProgress, ConnectAction::AwaitWritable),
        ConnectEvent::ErrorQueried { status, error, class } => if status >= 0 && error == 0 {
            (ConnectState::Connected, ConnectAction::Finish)
        } else if waits_out_exec(policy, class) {
            (ConnectState::InProgress, ConnectAction::AwaitWritable)
        } else if status < 0 {
            (ConnectState::Failed, ConnectAction::FailWithLastOsError)
        } else {
            (ConnectState::Failed, ConnectAction::FailWithCode { code: error })
        },
    }
}

/// Whether `policy` waits out an error of class `class` while connecting.
fn waits_out_exec(policy: RetryPolicy, class: ErrorClass) -> (r: bool)
    ensures
        r == waits_out(policy, class),
{
    match (policy, class) {
        (_, ErrorClass::WouldBlock) => true,
        (RetryPolicy::AsyncIo, ErrorClass::Interrupted) => true,
        _ => false,
    }
}

/// Whether a read or write on a connected vsock socket is tried again after an error of class
/// `class`: a would-block or an interruption is, any other error is reported.
pub fn should_retry_io(class: ErrorClass) -> (r: bool)
    ensures
        r == (class == ErrorClass::WouldBlock || class == ErrorClass::Interrupted),
{
    match class {
        ErrorClass::WouldBlock => true,
        ErrorClass::Interrupted => true,
        ErrorClass::Other => false,
    }
}

/* Laws */

/// Whether `action` ends the attempt with an error.
pub open spec fn is_failure(action: ConnectAction) -> bool {
    match action {
        ConnectAction::FailWithLastOsError => true,
        ConnectAction::CloseThenFailWithLastOsError => true,
        ConnectAction::CloseThenFailWithConnectError => true,
        ConnectAction::FailWithCode { .. } => true,
        _ => false,
    }
}

/// A connection attempt that fails while its socket is open but before `connect` is under way
/// closes the socket.
pub proof fn law_early_failure_closes_socket(
    policy: RetryPolicy,
    state: ConnectState,
    event: ConnectEvent,
)
    requires
        expects(state, event),
        state == ConnectState::SocketOpen || state == ConnectState::NonBlocking,
        next(policy, state, event).0 == ConnectState::Failed,
    ensures
        next(policy, state, event).1 == ConnectAction::CloseThenFailWithLastOsError || next(
            policy,
            state,
            event,
        ).1 == ConnectAction::CloseThenFailWithConnectError,
{
}

/// A connection is established only when the pending-error query succeeded and reported no
/// error, and it is then handed over.
pub proof fn law_connected_only_without_error(
    policy: RetryPolicy,
    state: ConnectState,
    event: ConnectEvent,
)
    requires
        expects(state, event),
        next(policy, state, event).0 == ConnectState::Connected,
    ensures
        event matches ConnectEvent::ErrorQueried { status, error, .. } && status >= 0 && error == 0,
        next(policy, state, event).1 == ConnectAction::Finish,
{
}

/// While `connect` is under way, a query that would block never ends the attempt, under either
/// backend.
pub proof fn law_would_block_keeps_waiting(policy: RetryPolicy, event: ConnectEvent)
    requires
        expects(ConnectState::InProgress, event),
        event == ConnectEvent::NotWritable || (event matches ConnectEvent::ErrorQueried {
            class,
            ..
        } && class == ErrorClass::WouldBlock),
    ensures
        next(policy, ConnectState::InProgress, event).0 != ConnectState::Failed,
{
}

/// Every step ends in a state from which the protocol can go on, or in a final state.
pub proof fn law_step_targets(policy: RetryPolicy, state: ConnectState, event: ConnectEvent)
    requires
        expects(state, event),
    ensures
        next(policy, state, event).0 != ConnectState::Start,
        (next(policy, state, event).0 == ConnectState::Failed) == is_failure(
            next(policy, state, event).1,
        ),
{
}

/// While `connect` is under way, a pending-error query that reports an error which is neither
/// a would-block nor an interruption ends the attempt with that error, under either backend:
/// the error that `getsockopt` left when it failed, else the socket's pending error.
pub proof fn law_other_errors_end_the_attempt(policy: RetryPolicy, status: i32, error: i32)
    requires
        !(status >= 0 && error == 0),
    ensures
        next(
            policy,
            ConnectState::InProgress,
            ConnectEvent::ErrorQueried { status, error, class: ErrorClass::Other },
        ) == (if status < 0 {
            (ConnectState::Failed, ConnectAction::FailWithLastOsError)
        } else {
            (ConnectState::Failed, ConnectAction::FailWithCode { code: error })
        }),
{
}

/// While `connect` is under way, a pending-error query that reports an error keeps the attempt
/// waiting exactly when the error is a would-block, or an interruption under async-io; Tokio
/// reports an interruption.
pub proof fn law_only_transient_errors_are_waited_out(
    policy: RetryPolicy,
    status: i32,
    error: i32,
    class: ErrorClass,
)
    requires
        !(status >= 0 && error == 0),
    ensures
        (next(policy, ConnectState::InProgress, ConnectEvent::ErrorQueried { status, error, class })
            == (ConnectState::InProgress, ConnectAction::AwaitWritable)) == (class
            == ErrorClass::WouldBlock || (policy == RetryPolicy::AsyncIo && class
            == ErrorClass::Interrupted)),
        next(policy, ConnectState::InProgress, ConnectEvent::ErrorQueried { status, error, class }).0
            != ConnectState::Connected,
{
}

} // verus!
