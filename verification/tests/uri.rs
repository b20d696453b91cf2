use std::path::PathBuf;

use http::Uri;
use hyper_client_sockets::uri::{
    firecracker_target_of_parts, unix_path_of_parts, vsock_addr_of_parts, FirecrackerUri, UnixUri,
    VsockAddr, VsockUri,
};

#[test]
fn uri_unix_uri_should_be_constructed_correctly() {
    let uri_str = format!("unix://{}/route", hex::encode("/tmp/socket.sock"));
    assert_eq!(
        Uri::unix("/tmp/socket.sock", "/route").unwrap(),
        uri_str.parse::<Uri>().unwrap()
    );
}

#[test]
fn uri_unix_uri_should_be_deconstructed_correctly() {
    let uri = format!("unix://{}/route", hex::encode("/tmp/socket.sock"));
    assert_eq!(
        PathBuf::from(uri.parse::<Uri>().unwrap().parse_unix().unwrap()),
        PathBuf::from("/tmp/socket.sock")
    );
}

#[test]
fn uri_vsock_uri_should_be_constructed_correctly() {
    let uri = format!("vsock://{}/route", hex::encode("10.20"));
    assert_eq!(uri.parse::<Uri>().unwrap(), Uri::vsock(10, 20, "/route").unwrap());
}

#[test]
fn uri_vsock_uri_should_be_deconstructed_correctly() {
    let uri = format!("vsock://{}/route", hex::encode("10.20"))
        .parse::<Uri>()
        .unwrap();
    assert_eq!(uri.parse_vsock().unwrap(), VsockAddr::new(10, 20));
}

#[test]
fn uri_firecracker_uri_should_be_constructed_correctly() {
    let uri_str = format!("fc://{}/route", hex::encode("/tmp/socket.sock:1000"));
    assert_eq!(
        Uri::firecracker("/tmp/socket.sock", 1000, "/route").unwrap(),
        uri_str.parse::<Uri>().unwrap()
    );
}

#[test]
fn uri_firecracker_uri_should_be_deconstructed_correctly() {
    let uri = format!("fc://{}/route", hex::encode("/tmp/socket.sock:1000"))
        .parse::<Uri>()
        .unwrap();
    let (socket_path, port) = uri.parse_firecracker().unwrap();
    assert_eq!(PathBuf::from(socket_path), PathBuf::from("/tmp/socket.sock"));
    assert_eq!(port, 1000);
}

#[test]
fn uri_texts_are_written_exactly() {
    assert_eq!(
        hyper_client_sockets::uri::unix_uri_string("/a", "//x/y"),
        "unix://2f61/x/y"
    );
    assert_eq!(hyper_client_sockets::uri::vsock_uri_string(3, 0, ""), "vsock://332e30/");
    assert_eq!(
        hyper_client_sockets::uri::firecracker_uri_string("s", 7, "route"),
        "fc://733a37/route"
    );
}

#[test]
fn uri_leading_slashes_of_the_url_make_no_difference() {
    assert_eq!(
        Uri::unix("/tmp/socket.sock", "///route").unwrap(),
        Uri::unix("/tmp/socket.sock", "route").unwrap()
    );
    assert_eq!(Uri::vsock(1, 2, "/a").unwrap(), Uri::vsock(1, 2, "a").unwrap());
}

#[test]
fn uri_roundtrips_through_http() {
    let uri = Uri::unix("/var/run/ünïcode sock", "/v1").unwrap();
    assert_eq!(uri.parse_unix().unwrap(), "/var/run/ünïcode sock");
    let uri = Uri::vsock(u32::MAX, 0, "/").unwrap();
    assert_eq!(uri.parse_vsock().unwrap(), VsockAddr::new(u32::MAX, 0));
    let uri = Uri::firecracker("/run/fc.sock", 52, "/x").unwrap();
    assert_eq!(uri.parse_firecracker().unwrap(), ("/run/fc.sock".to_string(), 52));
}

#[test]
fn uri_invalid_url_is_refused_by_http() {
    assert!(Uri::unix("/tmp/s", "a b").is_err());
}

#[test]
fn uri_wrong_scheme_is_an_input_error() {
    let uri: Uri = "http://2f61/".parse().unwrap();
    let err = uri.parse_unix().unwrap_err();
    assert_eq!(err.kind, hyper_client_sockets::error::IoErrorKind::InvalidInput);
    assert_eq!(err.detail, "URI scheme on a Unix socket must be unix://");
    assert_eq!(
        uri.parse_vsock().unwrap_err().detail,
        "URI scheme on a vsock socket must be vsock://"
    );
    assert_eq!(
        uri.parse_firecracker().unwrap_err().detail,
        "URI scheme on a Firecracker socket must be fc://"
    );
}

#[test]
fn uri_missing_host_is_an_input_error() {
    assert_eq!(unix_path_of_parts(Some("unix"), None).unwrap_err().detail, "URI host must be present");
    assert_eq!(vsock_addr_of_parts(Some("vsock"), None).unwrap_err().detail, "URI host must be present");
    assert_eq!(
        firecracker_target_of_parts(Some("fc"), None).unwrap_err().detail,
        "URI host must be present"
    );
    assert_eq!(
        unix_path_of_parts(None, Some("2f")).unwrap_err().detail,
        "URI scheme on a Unix socket must be unix://"
    );
}

#[test]
fn uri_host_that_is_not_hex_is_an_input_error() {
    let uri: Uri = "unix://zz/".parse().unwrap();
    assert_eq!(uri.parse_unix().unwrap_err().detail, "URI host must be hex");
    let uri: Uri = "vsock://abc/".parse().unwrap();
    assert_eq!(uri.parse_vsock().unwrap_err().detail, "URI host must be hex");
    let uri: Uri = "fc://g0/".parse().unwrap();
    assert_eq!(uri.parse_firecracker().unwrap_err().detail, "URI host must be hex");
}

#[test]
fn uri_vsock_errors_name_the_failing_part() {
    let uri: Uri = format!("vsock://{}/", hex::encode("1020")).parse().unwrap();
    assert_eq!(
        uri.parse_vsock().unwrap_err().detail,
        "URI host could not be split at . into 2 slices (CID, then port)"
    );
    let uri: Uri = format!("vsock://{}/", hex::encode("x.20")).parse().unwrap();
    assert_eq!(uri.parse_vsock().unwrap_err().detail, "First split of URI (CID) can't be parsed");
    let uri: Uri = format!("vsock://{}/", hex::encode("10.4294967296")).parse().unwrap();
    assert_eq!(
        uri.parse_vsock().unwrap_err().detail,
        "Second split of URI (port) can't be parsed"
    );
}

#[test]
fn uri_firecracker_errors_name_the_failing_part() {
    let uri: Uri = format!("fc://{}/", hex::encode("/tmp/s")).parse().unwrap();
    assert_eq!(
        uri.parse_firecracker().unwrap_err().detail,
        "URI host could not be split in halves with a ."
    );
    let uri: Uri = format!("fc://{}/", hex::encode("/tmp/s:-1")).parse().unwrap();
    assert_eq!(
        uri.parse_firecracker().unwrap_err().detail,
        "URI guest port could not converted to u32"
    );
}

#[test]
fn uri_firecracker_path_with_colon_roundtrips() {
    let uri = Uri::firecracker("/tmp/a:b", 5, "/").unwrap();
    assert_eq!(uri.parse_firecracker().unwrap(), ("/tmp/a:b".to_string(), 5));
    let uri = Uri::firecracker("/tmp/a:b", 7, "/").unwrap();
    assert_eq!(uri.parse_firecracker().unwrap(), ("/tmp/a:b".to_string(), 7));
    let uri = Uri::firecracker("::", 0, "/x").unwrap();
    assert_eq!(uri.parse_firecracker().unwrap(), ("::".to_string(), 0));
}
