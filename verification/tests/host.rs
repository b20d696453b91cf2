use hyper_client_sockets::decimal::{parse_u32_bytes, push_decimal};
use hyper_client_sockets::host::{
    decode_firecracker_host, decode_unix_host, decode_vsock_host, firecracker_host_text,
    unix_host_text, vsock_host_text,
};
use hyper_client_sockets::text::{
    rsplit_once_str, split_once_str, starts_with_ok, str_eq, trim_start_slashes_str,
};

#[test]
fn host_texts_are_lower_case_hex() {
    assert_eq!(unix_host_text("/tmp/socket.sock"), hex::encode("/tmp/socket.sock"));
    assert_eq!(unix_host_text("\u{1F980}"), "f09fa680");
    assert_eq!(vsock_host_text(10, 20), "31302e3230");
    assert_eq!(firecracker_host_text("/p", 9), "2f703a39");
}

#[test]
fn host_roundtrips() {
    for path in ["", "/", "/tmp/socket.sock", "relative/ä ö", "\u{1F980}"] {
        assert_eq!(decode_unix_host(&unix_host_text(path)).unwrap(), path);
    }
    for (cid, port) in [(0, 0), (3, 1024), (u32::MAX, u32::MAX)] {
        assert_eq!(decode_vsock_host(&vsock_host_text(cid, port)).unwrap(), (cid, port));
    }
    for (path, port) in [("", 0), ("/run/firecracker.socket", 52), ("/ä", u32::MAX)] {
        assert_eq!(
            decode_firecracker_host(&firecracker_host_text(path, port)).unwrap(),
            (path.to_string(), port)
        );
    }
}

#[test]
fn host_firecracker_path_is_split_at_its_last_colon() {
    let host = hex::encode("a:b:7");
    assert_eq!(decode_firecracker_host(&host).unwrap(), ("a:b".to_string(), 7));
    let host = hex::encode("a:7:");
    assert_eq!(
        decode_firecracker_host(&host).unwrap_err().detail,
        "URI guest port could not converted to u32"
    );
    let host = hex::encode(":7");
    assert_eq!(decode_firecracker_host(&host).unwrap(), (String::new(), 7));
}

#[test]
fn host_numbers_are_written_and_read_in_decimal() {
    let mut out = b"x".to_vec();
    push_decimal(&mut out, 4096);
    assert_eq!(out, b"x4096".to_vec());
    assert_eq!(parse_u32_bytes(b"4294967295"), Some(u32::MAX));
    assert_eq!(parse_u32_bytes(b"4294967296"), None);
    assert_eq!(parse_u32_bytes(b"00000000000000000001"), Some(1));
    assert_eq!(parse_u32_bytes(b"+12"), Some(12));
    assert_eq!(parse_u32_bytes(b"+"), None);
    assert_eq!(parse_u32_bytes(b"-1"), None);
    assert_eq!(parse_u32_bytes(b""), None);
    assert_eq!(parse_u32_bytes(b" 1"), None);
    assert_eq!(parse_u32_bytes(b"99999999999a"), None);
}

#[test]
fn host_text_helpers() {
    assert_eq!(trim_start_slashes_str("///a/b/"), "a/b/");
    assert_eq!(trim_start_slashes_str("a"), "a");
    assert_eq!(trim_start_slashes_str("//"), "");
    assert_eq!(split_once_str("a.b.c", '.'), Some(("a", "b.c")));
    assert_eq!(split_once_str("ä.", '.'), Some(("ä", "")));
    assert_eq!(split_once_str("abc", '.'), None);
    assert_eq!(rsplit_once_str("a:b:c", ':'), Some(("a:b", "c")));
    assert_eq!(rsplit_once_str(":ä", ':'), Some(("", "ä")));
    assert_eq!(rsplit_once_str("ä:", ':'), Some(("ä", "")));
    assert_eq!(rsplit_once_str("abc", ':'), None);
    assert!(str_eq("ünï", "ünï"));
    assert!(!str_eq("ab", "abc"));
    assert!(starts_with_ok("OK"));
    assert!(!starts_with_ok("K"));
}
