use vstd::prelude::*;
use vstd::utf8::encode_utf8;

use http::uri::InvalidUri;
use http::Uri;

use crate::decimal::decimal;
use crate::error::{io_input_err, outcome_is, IoError};
use crate::hex_codec::lemma_hex_encode_lower;
use crate::host::{
    decode_firecracker_host, decode_unix_host, decode_vsock_host, firecracker_host,
    firecracker_host_text, firecracker_target_of_host, law_firecracker_host_roundtrip,
    law_unix_host_roundtrip, law_vsock_host_roundtrip, unix_host, unix_host_text,
    unix_path_of_host, vsock_addr_of_host, vsock_host, vsock_host_text,
};
use crate::http_uri::{
    host_of, is_lower_hex, is_lower_word, lettered_scheme_and_hex_host, parse_uri, parsed_uri,
    scheme_of, uri_host, uri_scheme,
};
use crate::text::{
    lemma_split_once_at, lemma_trim_start_slashes, opt_view, str_eq, trim_start_slashes, trim_start_slashes_str,
};

verus! {

/* The text of a socket URI: `{scheme}://{host}/{url without its leading slashes}` */

/// The text of the URI that names `url` inside the Unix socket at `path`.
pub open spec fn unix_uri_text(path: Seq<char>, url: Seq<char>) -> Seq<char> {
    "unix://"@ + unix_host(path) + "/"@ + trim_start_slashes(url)
}

/// The text of the URI that names `url` inside vsock port `port` of context `cid`.
pub open spec fn vsock_uri_text(cid: u32, port: u32, url: Seq<char>) -> Seq<char> {
    "vsock://"@ + vsock_host(cid, port) + "/"@ + trim_start_slashes(url)
}

/// The text of the URI that names `url` inside guest port `port` behind the Firecracker socket
/// at `path`.
pub open spec fn firecracker_uri_text(path: Seq<char>, port: u32, url: Seq<char>) -> Seq<char> {
    "fc://"@ + firecracker_host(path, port) + "/"@ + trim_start_slashes(url)
}

/// The socket path that a URI with this scheme and host names, or the message of the error.
pub open spec fn unix_path_of_uri(scheme: Option<Seq<char>>, host: Option<Seq<char>>) -> Result<
    Seq<char>,
    Seq<char>,
> {
    if scheme != Some("unix"@) {
        Err("URI scheme on a Unix socket must be unix://"@)
    } else {
        match host {
            Some(h) => unix_path_of_host(h),
            None => Err("URI host must be present"@),
        }
    }
}

/// The context id and port that a URI with this scheme and host names, or the message of the
/// error.
pub open spec fn vsock_addr_of_uri(scheme: Option<Seq<char>>, host: Option<Seq<char>>) -> Result<
    (u32, u32),
    Seq<char>,
> {
    if scheme != Some("vsock"@) {
        Err("URI scheme on a vsock socket must be vsock://"@)
    } else {
        match host {
            Some(h) => vsock_addr_of_host(h),
            None => Err("URI host must be present"@),
        }
    }
}

/// The socket path and guest port that a URI with this scheme and host names, or the message
/// of the error.
pub open spec fn firecracker_target_of_uri(
    scheme: Option<Seq<char>>,
    host: Option<Seq<char>>,
) -> Result<(Seq<char>, u32), Seq<char>> {
    if scheme != Some("fc"@) {
        Err("URI scheme on a Firecracker socket must be fc://"@)
    } else {
        match host {
            Some(h) => firecracker_target_of_host(h),
            None => Err("URI host must be present"@),
        }
    }
}

/// `text` is `prefix` followed by all of `url` but its leading slashes: the URL loses nothing
/// else, its query and every later segment included.
pub open spec fn is_prefix_then_url(text: Seq<char>, prefix: Seq<char>, url: Seq<char>) -> bool {
    let tail = text.skip(prefix.len() as int);
    &&& prefix.len() <= text.len()
    &&& text.take(prefix.len() as int) == prefix
    &&& tail.len() <= url.len()
    &&& url.skip(url.len() - tail.len()) == tail
    &&& forall|i: int| 0 <= i < url.len() - tail.len() ==> url[i] == '/'
    &&& tail.len() > 0 ==> tail[0] != '/'
}

/* Building URI texts */

/// `{prefix}{host}/{url without its leading slashes}`.
fn socket_uri_string(prefix: &str, host: &str, url: &str) -> (r: String)
    ensures
        r@ == prefix@ + host@ + "/"@ + trim_start_slashes(url@),
{
    let mut text = prefix.to_owned();
    text.append(host);
    text.append("/");
    text.append(trim_start_slashes_str(url));
    text
}

/// The text of the URI that names `url` inside the Unix socket at `socket_path`.
pub fn unix_uri_string(socket_path: &str, url: &str) -> (r: String)
    ensures
        r@ == unix_uri_text(socket_path@, url@),
{
    let host = unix_host_text(socket_path);
    socket_uri_string("unix://", host.as_str(), url)
}

/// The text of the URI that names `url` inside vsock port `port` of context `cid`.
pub fn vsock_uri_string(cid: u32, port: u32, url: &str) -> (r: String)
    ensures
        r@ == vsock_uri_text(cid, port, url@),
{
    let host = vsock_host_text(cid, port);
    socket_uri_string("vsock://", host.as_str(), url)
}

/// The text of the URI that names `url` inside guest port `guest_port` behind the Firecracker
/// socket at `host_socket_path`.
pub fn firecracker_uri_string(host_socket_path: &str, guest_port: u32, url: &str) -> (r: String)
    ensures
        r@ == firecracker_uri_text(host_socket_path@, guest_port, url@),
{
    let host = firecracker_host_text(host_socket_path, guest_port);
    socket_uri_string("fc://", host.as_str(), url)
}

/* Reading URI parts */

/// Whether the scheme is present and equal to `expected`.
fn scheme_is(scheme: Option<&str>, expected: &str) -> (r: bool)
    ensures
        r == (opt_view(scheme) == Some(expected@)),
{
    match scheme {
        Some(s) => str_eq(s, expected),
        None => false,
    }
}

/// The socket path that a URI with this scheme and host names.
pub fn unix_path_of_parts(scheme: Option<&str>, host: Option<&str>) -> (res: Result<String, IoError>)
    ensures
        outcome_is(res, unix_path_of_uri(opt_view(scheme), opt_view(host))),
{
    if !scheme_is(scheme, "unix") {
        return Err(io_input_err("URI scheme on a Unix socket must be unix://"));
    }
    match host {
        Some(host) => decode_unix_host(host),
        None => Err(io_input_err("URI host must be present")),
    }
}

/// The context id and port that a URI with this scheme and host names.
pub fn vsock_addr_of_parts(scheme: Option<&str>, host: Option<&str>) -> (res: Result<
    (u32, u32),
    IoError,
>)
    ensures
        outcome_is(res, vsock_addr_of_uri(opt_view(scheme), opt_view(host))),
{
    if !scheme_is(scheme, "vsock") {
        return Err(io_input_err("URI scheme on a vsock socket must be vsock://"));
    }
    match host {
        Some(host) => decode_vsock_host(host),
        None => Err(io_input_err("URI host must be present")),
    }
}

/// The socket path and guest port that a URI with this scheme and host names.
pub fn firecracker_target_of_parts(scheme: Option<&str>, host: Option<&str>) -> (res: Result<
    (String, u32),
    IoError,
>)
    ensures
        outcome_is(res, firecracker_target_of_uri(opt_view(scheme), opt_view(host))),
{
    if !scheme_is(scheme, "fc") {
        return Err(io_input_err("URI scheme on a Firecracker socket must be fc://"));
    }
    match host {
        Some(host) => decode_firecracker_host(host),
        None => Err(io_input_err("URI host must be present")),
    }
}

/* The address of a vsock socket */

/// A vsock address: a context id and a port.
#[derive(Debug, Clone, Copy, PartialEq, Eq, Structural)]
pub struct VsockAddr {
    pub cid: u32,
    pub port: u32,
}

impl View for VsockAddr {
    type V = (u32, u32);

    open spec fn view(&self) -> (u32, u32) {
        (self.cid, self.port)
    }
}

impl VsockAddr {
    /// The address of port `port` of context `cid`.
    pub fn new(cid: u32, port: u32) -> (a: VsockAddr)
        ensures
            a.cid == cid,
            a.port == port,
    {
        VsockAddr { cid, port }
    }
}

/* URIs of Unix, vsock and Firecracker sockets */

/// An extension trait for a URI that allows constructing a hex-encoded Unix socket URI.
pub trait UnixUri: Sized {
    /// Create a new Unix URI with the given socket path and in-socket URI.
    fn unix(socket_path: &str, url: &str) -> Result<Uri, InvalidUri>;

    /// Try to deconstruct this Unix URI's socket path.
    fn parse_unix(&self) -> Result<String, IoError>;
}

impl UnixUri for Uri {
    fn unix(socket_path: &str, url: &str) -> (res: Result<Uri, InvalidUri>)
        ensures
            res == parsed_uri(unix_uri_text(socket_path@, url@)),
            res matches Ok(u) ==> uri_scheme(u) == Some("unix"@) && uri_host(u) == Some(
                unix_host(socket_path@),
            ),
            res matches Ok(u) ==> unix_path_of_uri(uri_scheme(u), uri_host(u)) == Ok::<
                Seq<char>,
                Seq<char>,
            >(socket_path@),
    {
        let text = unix_uri_string(socket_path, url);
        proof {
            law_unix_uri_text(socket_path@, url@);
        }
        parse_uri(text.as_str())
    }

    fn parse_unix(&self) -> (res: Result<String, IoError>)
        ensures
            outcome_is(res, unix_path_of_uri(uri_scheme(*self), uri_host(*self))),
    {
        unix_path_of_parts(scheme_of(self), host_of(self))
    }
}

/// An extension trait for a URI that allows constructing a hex-encoded vsock URI.
pub trait VsockUri: Sized {
    /// Create a new vsock URI with the given vsock CID, port and in-socket URL.
    fn vsock(cid: u32, port: u32, url: &str) -> Result<Uri, InvalidUri>;

    /// Deconstruct this vsock URI into its address.
    fn parse_vsock(&self) -> Result<VsockAddr, IoError>;
}

impl VsockUri for Uri {
    fn vsock(cid: u32, port: u32, url: &str) -> (res: Result<Uri, InvalidUri>)
        ensures
            res == parsed_uri(vsock_uri_text(cid, port, url@)),
            res matches Ok(u) ==> uri_scheme(u) == Some("vsock"@) && uri_host(u) == Some(
                vsock_host(cid, port),
            ),
            res matches Ok(u) ==> vsock_addr_of_uri(uri_scheme(u), uri_host(u)) == Ok::<
                (u32, u32),
                Seq<char>,
            >((cid, port)),
    {
        let text = vsock_uri_string(cid, port, url);
        proof {
            law_vsock_uri_text(cid, port, url@);
        }
        parse_uri(text.as_str())
    }

    fn parse_vsock(&self) -> (res: Result<VsockAddr, IoError>)
        ensures
            outcome_is(res, vsock_addr_of_uri(uri_scheme(*self), uri_host(*self))),
    {
        match vsock_addr_of_parts(scheme_of(self), host_of(self)) {
            Ok((cid, port)) => Ok(VsockAddr::new(cid, port)),
            Err(e) => Err(e),
        }
    }
}

/// An extension trait for a URI that allows constructing a hex-encoded Firecracker socket URI.
pub trait FirecrackerUri: Sized {
    /// Create a new Firecracker URI with the given host socket path, guest port and in-socket
    /// URL.
    fn firecracker(host_socket_path: &str, guest_port: u32, url: &str) -> Result<Uri, InvalidUri>;

    /// Deconstruct this Firecracker URI into its host socket path and guest port.
    fn parse_firecracker(&self) -> Result<(String, u32), IoError>;
}

impl FirecrackerUri for Uri {
    fn firecracker(host_socket_path: &str, guest_port: u32, url: &str) -> (res: Result<
        Uri,
        InvalidUri,
    >)
        ensures
            res == parsed_uri(firecracker_uri_text(host_socket_path@, guest_port, url@)),
            res matches Ok(u) ==> uri_scheme(u) == Some("fc"@) && uri_host(u) == Some(
                firecracker_host(host_socket_path@, guest_port),
            ),
            res matches Ok(u) ==> firecracker_target_of_uri(uri_scheme(u), uri_host(u)) == Ok::<
                (Seq<char>, u32),
                Seq<char>,
            >((host_socket_path@, guest_port)),
    {
        let text = firecracker_uri_string(host_socket_path, guest_port, url);
        proof {
            law_firecracker_uri_text(host_socket_path@, guest_port, url@);
        }
        parse_uri(text.as_str())
    }

    fn parse_firecracker(&self) -> (res: Result<(String, u32), IoError>)
        ensures
            outcome_is(res, firecracker_target_of_uri(uri_scheme(*self), uri_host(*self))),
    {
        firecracker_target_of_parts(scheme_of(self), host_of(self))
    }
}

/* Laws */

/// Leading slashes of the in-socket URL make no difference to a socket URI.
pub proof fn law_url_leading_slash(path: Seq<char>, cid: u32, port: u32, url: Seq<char>)
    ensures
        unix_uri_text(path, seq!['/'] + url) == unix_uri_text(path, url),
        vsock_uri_text(cid, port, seq!['/'] + url) == vsock_uri_text(cid, port, url),
        firecracker_uri_text(path, port, seq!['/'] + url) == firecracker_uri_text(path, port, url),
{
    assert((seq!['/'] + url).drop_first() =~= url);
}

/// The parts of a text `{scheme}://{host}/{rest}` with a lettered scheme and a hex host.
proof fn lemma_socket_uri_parts(scheme: Seq<char>, host: Seq<char>, rest: Seq<char>)
    requires
        is_lower_word(scheme),
        is_lower_hex(host),
    ensures
        lettered_scheme_and_hex_host(scheme + "://"@ + host + "/"@ + rest) == Some((scheme, host)),
{
    reveal_strlit("://");
    reveal_strlit("/");
    let text = scheme + "://"@ + host + "/"@ + rest;
    let after = seq!['/', '/'] + host + seq!['/'] + rest;
    assert(!scheme.contains(':')) by {
        if scheme.contains(':') {
            let i = choose|i: int| 0 <= i < scheme.len() && scheme[i] == ':';
            assert(0x61 <= (scheme[i] as u32));
        }
    }
    assert(text =~= scheme + seq![':'] + after);
    lemma_split_once_at(text, ':', scheme, after);
    assert(!host.contains('/')) by {
        if host.contains('/') {
            let i = choose|i: int| 0 <= i < host.len() && host[i] == '/';
            assert((host[i] as u32) >= 0x30);
        }
    }
    assert(after.skip(2) =~= host + seq!['/'] + rest);
    lemma_split_once_at(after.skip(2), '/', host, rest);
}

/// A Unix URI text has the scheme `unix` and the host that names the socket path, and reading
/// that host gives back the path.
pub proof fn law_unix_uri_text(path: Seq<char>, url: Seq<char>)
    ensures
        lettered_scheme_and_hex_host(unix_uri_text(path, url)) == Some(("unix"@, unix_host(path))),
        unix_path_of_uri(Some("unix"@), Some(unix_host(path))) == Ok::<Seq<char>, Seq<char>>(path),
{
    reveal_strlit("unix");
    reveal_strlit("unix://");
    reveal_strlit("://");
    assert("unix://"@ =~= "unix"@ + "://"@);
    lemma_hex_encode_lower(encode_utf8(path));
    lemma_socket_uri_parts("unix"@, unix_host(path), trim_start_slashes(url));
    law_unix_host_roundtrip(path);
}

/// A vsock URI text has the scheme `vsock` and the host that names the address, and reading
/// that host gives back the context id and port.
pub proof fn law_vsock_uri_text(cid: u32, port: u32, url: Seq<char>)
    ensures
        lettered_scheme_and_hex_host(vsock_uri_text(cid, port, url)) == Some(
            ("vsock"@, vsock_host(cid, port)),
        ),
        vsock_addr_of_uri(Some("vsock"@), Some(vsock_host(cid, port))) == Ok::<(u32, u32), Seq<char>>(
            (cid, port),
        ),
{
    reveal_strlit("vsock");
    reveal_strlit("vsock://");
    reveal_strlit("://");
    assert("vsock://"@ =~= "vsock"@ + "://"@);
    lemma_hex_encode_lower(
        encode_utf8(decimal(cid as nat) + seq!['.'] + decimal(port as nat)),
    );
    lemma_socket_uri_parts("vsock"@, vsock_host(cid, port), trim_start_slashes(url));
    law_vsock_host_roundtrip(cid, port);
}

/// A Firecracker URI text has the scheme `fc` and the host that names the socket path and
/// guest port, and reading that host gives them back.
pub proof fn law_firecracker_uri_text(path: Seq<char>, port: u32, url: Seq<char>)
    ensures
        lettered_scheme_and_hex_host(firecracker_uri_text(path, port, url)) == Some(
            ("fc"@, firecracker_host(path, port)),
        ),
        firecracker_target_of_uri(Some("fc"@), Some(firecracker_host(path, port))) == Ok::<
            (Seq<char>, u32),
            Seq<char>,
        >((path, port)),
{
    reveal_strlit("fc");
    reveal_strlit("fc://");
    reveal_strlit("://");
    assert("fc://"@ =~= "fc"@ + "://"@);
    lemma_hex_encode_lower(encode_utf8(path + seq![':'] + decimal(port as nat)));
    lemma_socket_uri_parts("fc"@, firecracker_host(path, port), trim_start_slashes(url));
    law_firecracker_host_roundtrip(path, port);
}

/// A Unix URI text is `unix://`, the host that names the socket path, `/`, and then the whole
/// in-socket URL but its leading slashes.
pub proof fn law_unix_uri_keeps_url(path: Seq<char>, url: Seq<char>)
    ensures
        is_prefix_then_url(unix_uri_text(path, url), "unix://"@ + unix_host(path) + "/"@, url),
{
    lemma_prefix_then_url("unix://"@ + unix_host(path) + "/"@, url);
}

/// A vsock URI text is `vsock://`, the host that names the address, `/`, and then the whole
/// in-socket URL but its leading slashes.
pub proof fn law_vsock_uri_keeps_url(cid: u32, port: u32, url: Seq<char>)
    ensures
        is_prefix_then_url(
            vsock_uri_text(cid, port, url),
            "vsock://"@ + vsock_host(cid, port) + "/"@,
            url,
        ),
{
    lemma_prefix_then_url("vsock://"@ + vsock_host(cid, port) + "/"@, url);
}

/// A Firecracker URI text is `fc://`, the host that names the socket path and guest port, `/`,
/// and then the whole in-socket URL but its leading slashes.
pub proof fn law_firecracker_uri_keeps_url(path: Seq<char>, port: u32, url: Seq<char>)
    ensures
        is_prefix_then_url(
            firecracker_uri_text(path, port, url),
            "fc://"@ + firecracker_host(path, port) + "/"@,
            url,
        ),
{
    lemma_prefix_then_url("fc://"@ + firecracker_host(path, port) + "/"@, url);
}

/// A prefix followed by the URL without its leading slashes has the shape that
/// `is_prefix_then_url` describes.
proof fn lemma_prefix_then_url(prefix: Seq<char>, url: Seq<char>)
    ensures
        is_prefix_then_url(prefix + trim_start_slashes(url), prefix, url),
{
    let text = prefix + trim_start_slashes(url);
    lemma_trim_start_slashes(url);
    assert(text.take(prefix.len() as int) =~= prefix);
    assert(text.skip(prefix.len() as int) =~= trim_start_slashes(url));
}

} // verus!
