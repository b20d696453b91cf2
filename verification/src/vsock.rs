use vstd::prelude::*;

use http::uri::InvalidUri;
use http::Uri;

use crate::error::{outcome_is, IoError};
use crate::host::vsock_host;
use crate::http_uri::{host_of, parse_uri, parsed_uri, scheme_of, uri_host, uri_scheme};
use crate::uri::{
    law_vsock_uri_text, vsock_addr_of_parts, vsock_addr_of_uri, vsock_uri_string, vsock_uri_text,
};

verus! {

/// An extension trait for hyper URI allowing work with vsock URIs.
pub trait VsockUriExt: Sized {
    /// Create a new vsock URI with the given vsock CID, port and in-socket URL.
    fn vsock(cid: u32, port: u32, url: &str) -> Result<Uri, InvalidUri>;

    /// Deconstruct this vsock URI into its CID and port.
    fn parse_vsock(&self) -> Result<(u32, u32), IoError>;
}

impl VsockUriExt for Uri {
    fn vsock(cid: u32, port: u32, url: &str) -> (res: Result<Uri, InvalidUri>)
        ensures
            res == parsed_uri(vsock_uri_text(cid, port, url@)),
            res matches Ok(u) ==> uri_scheme(u) == Some("vsock"@) && uri_host(u) == Some(
                vsock_host(cid, port),
            ),
            res matches Ok(u) ==> vsock_addr_of_uri(uri_scheme(u), uri_host(u)) == Ok::<
                (u32, u32),
                Seq<char>,
            >((cid, port)),
    {
        let text = vsock_uri_string(cid, port, url);
        proof {
            law_vsock_uri_text(cid, port, url@);
        }
        parse_uri(text.as_str())
    }

    fn parse_vsock(&self) -> (res: Result<(u32, u32), IoError>)
        ensures
            outcome_is(res, vsock_addr_of_uri(uri_scheme(*self), uri_host(*self))),
    {
        vsock_addr_of_parts(scheme_of(self), host_of(self))
    }
}

} // verus!
