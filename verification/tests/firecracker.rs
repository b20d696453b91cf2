use std::path::PathBuf;

use http::Uri;
use hyper_client_sockets::error::IoErrorKind;
use hyper_client_sockets::firecracker::{
    authenticate_reply, connect_command_bytes, read_tunnel_reply, tunnel_outcome,
    FirecrackerUriExt, TunnelReply,
};

#[test]
fn firecracker_firecracker_uri_should_be_constructed_correctly() {
    let uri_str = format!("fc://{}/route", hex::encode("/tmp/socket.sock:1000"));
    assert_eq!(
        Uri::firecracker("/tmp/socket.sock", 1000, "/route").unwrap(),
        uri_str.parse::<Uri>().unwrap()
    );
}

#[test]
fn firecracker_firecracker_uri_should_be_deconstructed_correctly() {
    let uri = format!("fc://{}/route", hex::encode("/tmp/socket.sock:1000"))
        .parse::<Uri>()
        .unwrap();
    let (socket_path, port) = uri.parse_firecracker().unwrap();
    assert_eq!(PathBuf::from(socket_path), PathBuf::from("/tmp/socket.sock"));
    assert_eq!(port, 1000);
}

#[test]
fn firecracker_connect_command_names_the_port() {
    assert_eq!(connect_command_bytes(1234), b"CONNECT 1234\n".to_vec());
    assert_eq!(connect_command_bytes(0), b"CONNECT 0\n".to_vec());
    assert_eq!(connect_command_bytes(u32::MAX), b"CONNECT 4294967295\n".to_vec());
}

#[test]
fn firecracker_reply_is_read_from_its_first_line() {
    assert_eq!(read_tunnel_reply(Some("OK 1073741824")), TunnelReply::Accepted);
    assert_eq!(read_tunnel_reply(Some("OK")), TunnelReply::Accepted);
    assert_eq!(read_tunnel_reply(Some("O")), TunnelReply::Refused);
    assert_eq!(read_tunnel_reply(Some("ok")), TunnelReply::Refused);
    assert_eq!(read_tunnel_reply(Some("")), TunnelReply::Refused);
    assert_eq!(read_tunnel_reply(Some("ÖK")), TunnelReply::Refused);
    assert_eq!(read_tunnel_reply(None), TunnelReply::Unreadable);
}

#[test]
fn firecracker_handshake_outcomes() {
    assert!(authenticate_reply(Some("OK 5")).is_ok());
    let refused = authenticate_reply(Some("FAILURE")).unwrap_err();
    assert_eq!(refused.kind, IoErrorKind::ConnectionRefused);
    assert_eq!(
        refused.detail,
        "Firecracker refused to establish a tunnel to the given guest port"
    );
    let unreadable = authenticate_reply(None).unwrap_err();
    assert_eq!(unreadable.kind, IoErrorKind::InvalidInput);
    assert_eq!(unreadable.detail, "Could not read response");
    let other = tunnel_outcome(TunnelReply::Unreadable, "no answer").unwrap_err();
    assert_eq!(other.detail, "no answer");
}
