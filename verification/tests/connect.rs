use hyper_client_sockets::backend::{AsyncIoBackend, TokioBackend};
use hyper_client_sockets::error::{io_input_err, IoErrorKind};
use hyper_client_sockets::vsock_connect::{
    should_retry_io, ConnectAction, ConnectErrno, ConnectEvent, ConnectState, ErrorClass,
};

#[test]
fn connect_happy_path_reaches_connected() {
    let (s, a) = TokioBackend::vsock_connect_step(ConnectState::Start, ConnectEvent::SocketCreated { fd: 7 });
    assert_eq!((s, a), (ConnectState::SocketOpen, ConnectAction::SetFlags));
    let (s, a) = TokioBackend::vsock_connect_step(s, ConnectEvent::FlagsSet { status: 0 });
    assert_eq!((s, a), (ConnectState::NonBlocking, ConnectAction::Connect));
    let (s, a) = TokioBackend::vsock_connect_step(
        s,
        ConnectEvent::ConnectCalled { status: -1, errno: ConnectErrno::InProgress },
    );
    assert_eq!((s, a), (ConnectState::InProgress, ConnectAction::AwaitWritable));
    let (s, a) = TokioBackend::vsock_connect_step(s, ConnectEvent::NotWritable);
    assert_eq!((s, a), (ConnectState::InProgress, ConnectAction::AwaitWritable));
    let (s, a) = TokioBackend::vsock_connect_step(
        s,
        ConnectEvent::ErrorQueried { status: 0, error: 0, class: ErrorClass::Other },
    );
    assert_eq!((s, a), (ConnectState::Connected, ConnectAction::Finish));
}

#[test]
fn connect_early_failures_close_the_socket() {
    assert_eq!(
        TokioBackend::vsock_connect_step(ConnectState::Start, ConnectEvent::SocketCreated { fd: -1 }),
        (ConnectState::Failed, ConnectAction::FailWithLastOsError)
    );
    assert_eq!(
        AsyncIoBackend::vsock_connect_step(ConnectState::SocketOpen, ConnectEvent::FlagsSet { status: -1 }),
        (ConnectState::Failed, ConnectAction::CloseThenFailWithLastOsError)
    );
    assert_eq!(
        AsyncIoBackend::vsock_connect_step(
            ConnectState::NonBlocking,
            ConnectEvent::ConnectCalled { status: -1, errno: ConnectErrno::Other }
        ),
        (ConnectState::Failed, ConnectAction::CloseThenFailWithConnectError)
    );
    assert_eq!(
        AsyncIoBackend::vsock_connect_step(
            ConnectState::NonBlocking,
            ConnectEvent::ConnectCalled { status: -1, errno: ConnectErrno::Unknown }
        ),
        (ConnectState::InProgress, ConnectAction::AwaitWritable)
    );
}

#[test]
fn connect_backends_differ_on_interrupted_queries() {
    let event = ConnectEvent::ErrorQueried { status: -1, error: 0, class: ErrorClass::Interrupted };
    assert_eq!(
        TokioBackend::vsock_connect_step(ConnectState::InProgress, event),
        (ConnectState::Failed, ConnectAction::FailWithLastOsError)
    );
    assert_eq!(
        AsyncIoBackend::vsock_connect_step(ConnectState::InProgress, event),
        (ConnectState::InProgress, ConnectAction::AwaitWritable)
    );
    let refused = ConnectEvent::ErrorQueried { status: 0, error: 111, class: ErrorClass::Other };
    assert_eq!(
        TokioBackend::vsock_connect_step(ConnectState::InProgress, refused),
        (ConnectState::Failed, ConnectAction::FailWithCode { code: 111 })
    );
    let busy = ConnectEvent::ErrorQueried { status: 0, error: 11, class: ErrorClass::WouldBlock };
    assert_eq!(
        TokioBackend::vsock_connect_step(ConnectState::InProgress, busy),
        (ConnectState::InProgress, ConnectAction::AwaitWritable)
    );
}

#[test]
fn connect_io_retries() {
    assert!(should_retry_io(ErrorClass::WouldBlock));
    assert!(should_retry_io(ErrorClass::Interrupted));
    assert!(!should_retry_io(ErrorClass::Other));
}

#[test]
fn connect_firecracker_async_io_messages() {
    assert!(AsyncIoBackend::firecracker_tunnel_outcome(Some("OK")).is_ok());
    let err = AsyncIoBackend::firecracker_tunnel_outcome(None).unwrap_err();
    assert_eq!(err.kind, IoErrorKind::InvalidInput);
    assert_eq!(err.detail, "Could not read Firecracker response");
}

#[test]
fn connect_input_error_carries_its_message() {
    let e = io_input_err("bad");
    assert_eq!(e.kind, IoErrorKind::InvalidInput);
    assert_eq!(e.detail, "bad");
}
