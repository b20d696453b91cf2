use std::path::PathBuf;

use http::Uri;
use hyper_client_sockets::unix::{UnixSocketConnector, UnixSocketUri, UnixUriExt};

#[test]
fn unix_unix_uri_should_be_constructed_correctly() {
    let uri_str = format!("unix://{}/route", hex::encode("/tmp/socket.sock"));
    assert_eq!(
        Uri::unix("/tmp/socket.sock", "/route").unwrap(),
        uri_str.parse::<Uri>().unwrap()
    );
}

#[test]
fn unix_unix_uri_should_be_deconstructed_correctly() {
    let uri = format!("unix://{}/route", hex::encode("/tmp/socket.sock"));
    assert_eq!(
        PathBuf::from(uri.parse::<Uri>().unwrap().parse_unix().unwrap()),
        PathBuf::from("/tmp/socket.sock")
    );
}

#[test]
fn unix_socket_uri_converts_into_the_uri_it_holds() {
    let socket_uri = UnixSocketUri::new("/tmp/socket.sock", "/route").unwrap();
    let uri: Uri = socket_uri.into();
    let expected = format!("unix://{}/route", hex::encode("/tmp/socket.sock"));
    assert_eq!(uri, expected.parse::<Uri>().unwrap());
    assert_eq!(UnixSocketUri::decode(&uri).unwrap(), "/tmp/socket.sock");
}

#[test]
fn unix_socket_uri_decode_reports_errors() {
    let uri: Uri = "unix://xyz/".parse().unwrap();
    assert_eq!(UnixSocketUri::decode(&uri).unwrap_err().detail, "URI host must be hex");
    let uri: Uri = "https://2f/".parse().unwrap();
    assert_eq!(
        UnixSocketUri::decode(&uri).unwrap_err().detail,
        "URI scheme on a Unix socket must be unix://"
    );
}

#[test]
fn unix_socket_path_that_is_not_utf8_is_decoded_lossily() {
    let uri: Uri = "unix://2fff/".parse().unwrap();
    assert_eq!(uri.parse_unix().unwrap(), "/\u{fffd}");
}

#[test]
fn unix_socket_connector_is_a_plain_value() {
    let connector = UnixSocketConnector::default();
    let copy = connector;
    assert_eq!(format!("{:?}", copy), "UnixSocketConnector");
}
