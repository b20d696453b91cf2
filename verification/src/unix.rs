use vstd::prelude::*;

use http::uri::InvalidUri;
use http::Uri;

use crate::error::{outcome_is, IoError};
use crate::host::unix_host;
use crate::http_uri::{host_of, parse_uri, parsed_uri, scheme_of, uri_host, uri_scheme};
use crate::uri::{
    law_unix_uri_text, unix_path_of_parts, unix_path_of_uri, unix_uri_string, unix_uri_text,
};

verus! {

/// An extension trait for a URI that allows constructing a Unix socket URI.
pub trait UnixUriExt: Sized {
    /// Create a new Unix URI with the given socket path and in-socket URI.
    fn unix(socket_path: &str, url: &str) -> Result<Uri, InvalidUri>;

    /// Try to deconstruct this Unix URI's socket path.
    fn parse_unix(&self) -> Result<String, IoError>;
}

impl UnixUriExt for Uri {
    fn unix(socket_path: &str, url: &str) -> (res: Result<Uri, InvalidUri>)
        ensures
            res == parsed_uri(unix_uri_text(socket_path@, url@)),
            res matches Ok(u) ==> uri_scheme(u) == Some("unix"@) && uri_host(u) == Some(
                unix_host(socket_path@),
            ),
            res matches Ok(u) ==> unix_path_of_uri(uri_scheme(u), uri_host(u)) == Ok::<
                Seq<char>,
                Seq<char>,
            >(socket_path@),
    {
        let text = unix_uri_string(socket_path, url);
        proof {
            law_unix_uri_text(socket_path@, url@);
        }
        parse_uri(text.as_str())
    }

    fn parse_unix(&self) -> (res: Result<String, IoError>)
        ensures
            outcome_is(res, unix_path_of_uri(uri_scheme(*self), uri_host(*self))),
    {
        unix_path_of_parts(scheme_of(self), host_of(self))
    }
}

/// A URI that points at a Unix socket and at the URL inside the socket.
#[derive(Debug, PartialEq, Eq)]
pub struct UnixSocketUri {
    hyper_uri: Uri,
}

impl View for UnixSocketUri {
    type V = Uri;

    closed spec fn view(&self) -> Uri {
        self.hyper_uri
    }
}

impl UnixSocketUri {
    /// Create a new Unix socket URI from a given socket and in-socket URL.
    pub fn new(socket_path: &str, url: &str) -> (res: Result<UnixSocketUri, InvalidUri>)
        ensures
            match res {
                Ok(u) => parsed_uri(unix_uri_text(socket_path@, url@)) == Ok::<Uri, InvalidUri>(u@),
                Err(e) => parsed_uri(unix_uri_text(socket_path@, url@)) == Err::<Uri, InvalidUri>(e),
            },
            res matches Ok(u) ==> uri_scheme(u@) == Some("unix"@) && uri_host(u@) == Some(
                unix_host(socket_path@),
            ),
            res matches Ok(u) ==> unix_path_of_uri(uri_scheme(u@), uri_host(u@)) == Ok::<
                Seq<char>,
                Seq<char>,
            >(socket_path@),
    {
        let text = unix_uri_string(socket_path, url);
        proof {
            law_unix_uri_text(socket_path@, url@);
        }
        match parse_uri(text.as_str()) {
            Ok(hyper_uri) => Ok(UnixSocketUri { hyper_uri }),
            Err(e) => Err(e),
        }
    }

    /// The socket path that a Unix socket URI names.
    pub fn decode(hyper_uri: &Uri) -> (res: Result<String, IoError>)
        ensures
            outcome_is(res, unix_path_of_uri(uri_scheme(*hyper_uri), uri_host(*hyper_uri))),
    {
        unix_path_of_parts(scheme_of(hyper_uri), host_of(hyper_uri))
    }
}

impl From<UnixSocketUri> for Uri {
    fn from(value: UnixSocketUri) -> (r: Uri)
        ensures
            r == value@,
    {
        value.hyper_uri
    }
}

impl vstd::std_specs::convert::FromSpecImpl<UnixSocketUri> for Uri {
    open spec fn obeys_from_spec() -> bool {
        true
    }

    open spec fn from_spec(v: UnixSocketUri) -> Uri {
        v@
    }
}

/// A hyper connector for a Unix socket: it reads the socket path out of each URI it is asked
/// to connect to.
#[derive(Debug, Clone, Copy, Default)]
pub struct UnixSocketConnector;

} // verus!
