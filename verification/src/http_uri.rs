use vstd::prelude::*;

use http::uri::InvalidUri;
use http::Uri;

use crate::text::split_once;

verus! {

#[verifier::external_type_specification]
#[verifier::external_body]
pub struct ExUri(Uri);

#[verifier::external_type_specification]
#[verifier::external_body]
pub struct ExInvalidUri(InvalidUri);

/// The name of what `<http::Uri as FromStr>::from_str` gives for a text.
pub uninterp spec fn parsed_uri(text: Seq<char>) -> Result<Uri, InvalidUri>;

/// The name of what `http::Uri::scheme_str` gives for a URI.
pub uninterp spec fn uri_scheme(uri: Uri) -> Option<Seq<char>>;

/// The name of what `http::Uri::host` gives for a URI.
pub uninterp spec fn uri_host(uri: Uri) -> Option<Seq<char>>;

/// Whether `s` is a non-empty run of lower-case ASCII letters.
pub open spec fn is_lower_word(s: Seq<char>) -> bool {
    s.len() > 0 && forall|i: int|
        0 <= i < s.len() ==> 0x61 <= (#[trigger] s[i] as u32) && (s[i] as u32) <= 0x7a
}

/// Whether every character of `s` is a lower-case hexadecimal digit.
pub open spec fn is_lower_hex(s: Seq<char>) -> bool {
    forall|i: int|
        0 <= i < s.len() ==> (0x30 <= (#[trigger] s[i] as u32) && (s[i] as u32) <= 0x39) || (0x61
            <= (s[i] as u32) && (s[i] as u32) <= 0x66)
}

/// The scheme and the host of a text `{scheme}://{host}/{rest}` whose scheme is a run of
/// lower-case letters and whose host consists of lower-case hexadecimal digits; `None` for a
/// text of another form.
pub open spec fn lettered_scheme_and_hex_host(text: Seq<char>) -> Option<(Seq<char>, Seq<char>)> {
    match split_once(text, ':') {
        Some((scheme, after)) => if is_lower_word(scheme) && after.len() >= 2 && after[0] == '/'
            && after[1] == '/' {
            match split_once(after.skip(2), '/') {
                Some((host, _)) => if is_lower_hex(host) {
                    Some((scheme, host))
                } else {
                    None
                },
                None => None,
            }
        } else {
            None
        },
        None => None,
    }
}

/// Calls `<http::Uri as FromStr>::from_str`. The contract claims that the result is a function
/// of the text, and one fact about it: for a text `{scheme}://{host}/{rest}` whose scheme is
/// lower-case letters and whose host is lower-case hexadecimal digits, a URI comes back only
/// when the host is not empty, and then its scheme and host are those of the text (`http`
/// reads such a scheme up to the first `:`, the authority up to the next `/`, and a host
/// without `@`, `[` or `:` is the whole authority). Which other texts are URIs, and what their
/// parts are, is not stated.
#[verifier::external_body]
pub(crate) fn parse_uri(text: &str) -> (res: Result<Uri, InvalidUri>)
    ensures
        res == parsed_uri(text@),
        match (res, lettered_scheme_and_hex_host(text@)) {
            (Ok(u), Some((scheme, host))) => host.len() > 0 && uri_scheme(u) == Some(scheme)
                && uri_host(u) == Some(host),
            _ => true,
        },
{
    text.parse::<Uri>()
}

/// Calls `http::Uri::scheme_str`. The contract claims only that the result is a function of
/// the URI.
#[verifier::external_body]
pub(crate) fn scheme_of(uri: &Uri) -> (res: Option<&str>)
    ensures
        match res {
            Some(s) => uri_scheme(*uri) == Some(s@),
            None => uri_scheme(*uri) is None,
        },
{
    uri.scheme_str()
}

/// Calls `http::Uri::host`. The contract claims only that the result is a function of the URI.
#[verifier::external_body]
pub(crate) fn host_of(uri: &Uri) -> (res: Option<&str>)
    ensures
        match res {
            Some(s) => uri_host(*uri) == Some(s@),
            None => uri_host(*uri) is None,
        },
{
    uri.host()
}

} // verus!
