use http::Uri;
use hyper_client_sockets::vsock::VsockUriExt;

#[test]
fn vsock_vsock_uri_should_be_constructed_correctly() {
    let uri = format!("vsock://{}/route", hex::encode("10.20"));
    assert_eq!(uri.parse::<Uri>().unwrap(), Uri::vsock(10, 20, "/route").unwrap());
}

#[test]
fn vsock_vsock_uri_should_be_deconstructed_correctly() {
    let uri = format!("vsock://{}/route", hex::encode("10.20"))
        .parse::<Uri>()
        .unwrap();
    assert_eq!(uri.parse_vsock().unwrap(), (10, 20));
}

#[test]
fn vsock_numbers_are_read_as_from_str_reads_them() {
    let uri: Uri = format!("vsock://{}/", hex::encode("+007.0")).parse().unwrap();
    assert_eq!(uri.parse_vsock().unwrap(), (7, 0));
    let uri: Uri = format!("vsock://{}/", hex::encode("1.2.3")).parse().unwrap();
    assert_eq!(
        uri.parse_vsock().unwrap_err().detail,
        "Second split of URI (port) can't be parsed"
    );
    let uri: Uri = format!("vsock://{}/", hex::encode(".5")).parse().unwrap();
    assert_eq!(uri.parse_vsock().unwrap_err().detail, "First split of URI (CID) can't be parsed");
    let uri: Uri = format!("vsock://{}/", hex::encode("+.5")).parse().unwrap();
    assert_eq!(uri.parse_vsock().unwrap_err().detail, "First split of URI (CID) can't be parsed");
}

#[test]
fn vsock_host_accepts_upper_case_hex() {
    let uri: Uri = format!("vsock://{}/", hex::encode_upper("3.4")).parse().unwrap();
    assert_eq!(uri.parse_vsock().unwrap(), (3, 4));
}
