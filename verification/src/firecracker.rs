use vstd::prelude::*;
use vstd::utf8::*;

use http::uri::InvalidUri;
use http::Uri;

use crate::decimal::{
    decimal, is_digit_byte, lemma_decimal_digits, lemma_decimal_no_leading_zero,
    lemma_parse_decimal, parse_u32, push_decimal,
};
use crate::error::{io_input_err, is_input_error, outcome_is, IoError, IoErrorKind};
use crate::host::firecracker_host;
use crate::http_uri::{host_of, parse_uri, parsed_uri, scheme_of, uri_host, uri_scheme};
use crate::text::{extend_with_str, lemma_encode_utf8_append, opt_view, starts_with_ok};
use crate::uri::{
    firecracker_target_of_parts, firecracker_target_of_uri, firecracker_uri_string,
    firecracker_uri_text, law_firecracker_uri_text,
};

verus! {

/// An extension trait for hyper URI allowing work with Firecracker URIs.
pub trait FirecrackerUriExt: Sized {
    /// Create a new Firecracker URI with the given host socket path, guest port and in-socket
    /// URL.
    fn firecracker(host_socket_path: &str, guest_port: u32, url: &str) -> Result<Uri, InvalidUri>;

    /// Deconstruct this Firecracker URI into its host socket path and guest port.
    fn parse_firecracker(&self) -> Result<(String, u32), IoError>;
}

impl FirecrackerUriExt for Uri {
    fn firecracker(host_socket_path: &str, guest_port: u32, url: &str) -> (res: Result<
        Uri,
        InvalidUri,
    >)
        ensures
            res == parsed_uri(firecracker_uri_text(host_socket_path@, guest_port, url@)),
            res matches Ok(u) ==> uri_scheme(u) == Some("fc"@) && uri_host(u) == Some(
                firecracker_host(host_socket_path@, guest_port),
            ),
            res matches Ok(u) ==> firecracker_target_of_uri(uri_scheme(u), uri_host(u)) == Ok::<
                (Seq<char>, u32),
                Seq<char>,
            >((host_socket_path@, guest_port)),
    {
        let text = firecracker_uri_string(host_socket_path, guest_port, url);
        proof {
            law_firecracker_uri_text(host_socket_path@, guest_port, url@);
        }
        parse_uri(text.as_str())
    }

    fn parse_firecracker(&self) -> (res: Result<(String, u32), IoError>)
        ensures
            outcome_is(res, firecracker_target_of_uri(uri_scheme(*self), uri_host(*self))),
    {
        firecracker_target_of_parts(scheme_of(self), host_of(self))
    }
}

/* The tunnel handshake: the client writes `CONNECT {port}\n`, Firecracker answers one line */

/// The command that asks Firecracker for a tunnel to `guest_port`.
pub open spec fn connect_command(guest_port: u32) -> Seq<char> {
    "CONNECT "@ + decimal(guest_port as nat) + "\n"@
}

/// The bytes of the command that asks Firecracker for a tunnel to `guest_port`.
pub fn connect_command_bytes(guest_port: u32) -> (r: Vec<u8>)
    ensures
        r@ == encode_utf8(connect_command(guest_port)),
{
    let mut out: Vec<u8> = Vec::new();
    extend_with_str(&mut out, "CONNECT ");
    push_decimal(&mut out, guest_port);
    extend_with_str(&mut out, "\n");
    proof {
        let d = decimal(guest_port as nat);
        lemma_encode_utf8_append("CONNECT "@, d);
        lemma_encode_utf8_append("CONNECT "@ + d, "\n"@);
        assert(out@ =~= encode_utf8(connect_command(guest_port)));
    }
    out
}

/// The tunnel command is `CONNECT `, the requested port in decimal digits with no leading
/// zero, and a newline: reading the number back from the command gives the port.
pub proof fn law_connect_command_names_port(guest_port: u32)
    ensures
        connect_command(guest_port).len() >= 10,
        connect_command(guest_port).take(8) == "CONNECT "@,
        connect_command(guest_port).last() == '\n',
        parse_u32(
            encode_utf8(connect_command(guest_port).subrange(8, connect_command(guest_port).len() - 1)),
        ) == Some(guest_port),
        forall|i: int|
            0 <= i < encode_utf8(
                connect_command(guest_port).subrange(8, connect_command(guest_port).len() - 1),
            ).len() ==> is_digit_byte(
                #[trigger] encode_utf8(
                    connect_command(guest_port).subrange(8, connect_command(guest_port).len() - 1),
                )[i],
            ),
        connect_command(guest_port).len() == 10 || connect_command(guest_port)[8] != '0',
{
    reveal_strlit("CONNECT ");
    reveal_strlit("\n");
    let c = connect_command(guest_port);
    let d = decimal(guest_port as nat);
    lemma_decimal_no_leading_zero(guest_port as nat);
    lemma_decimal_digits(guest_port as nat);
    lemma_parse_decimal(guest_port);
    assert(c.take(8) =~= "CONNECT "@);
    assert(c.subrange(8, c.len() - 1) =~= d);
    assert(c[8] == d[0]);
}

/// How Firecracker answered a tunnel request.
#[derive(Debug, Clone, Copy, PartialEq, Eq, Structural)]
pub enum TunnelReply {
    /// The first line of the answer begins with `OK`.
    Accepted,
    /// The first line of the answer is something else.
    Refused,
    /// No line could be read.
    Unreadable,
}

/// What the first line of Firecracker's answer (`None` when none could be read) means.
pub open spec fn tunnel_reply(line: Option<Seq<char>>) -> TunnelReply {
    match line {
        None => TunnelReply::Unreadable,
        Some(l) => if l.len() >= 2 && l[0] == 'O' && l[1] == 'K' {
            TunnelReply::Accepted
        } else {
            TunnelReply::Refused
        },
    }
}

/// Reads Firecracker's answer from its first line (`None` when none could be read).
pub fn read_tunnel_reply(line: Option<&str>) -> (r: TunnelReply)
    ensures
        r == tunnel_reply(opt_view(line)),
{
    match line {
        None => TunnelReply::Unreadable,
        Some(l) => if starts_with_ok(l) {
            TunnelReply::Accepted
        } else {
            TunnelReply::Refused
        },
    }
}

/// `r` is what a handshake with this answer ends in: success when Firecracker accepted, a
/// refusal when it answered otherwise, and an input error with `unreadable` when there was no
/// answer.
pub open spec fn is_tunnel_outcome(r: Result<(), IoError>, reply: TunnelReply, unreadable: Seq<char>) -> bool {
    match reply {
        TunnelReply::Accepted => r is Ok,
        TunnelReply::Refused => r matches Err(e) && e.kind == IoErrorKind::ConnectionRefused
            && e.detail@ == "Firecracker refused to establish a tunnel to the given guest port"@,
        TunnelReply::Unreadable => r matches Err(e) && is_input_error(e, unreadable),
    }
}

/// What a handshake with this answer ends in, with `unreadable` as the message when there was
/// no answer.
pub fn tunnel_outcome(reply: TunnelReply, unreadable: &str) -> (r: Result<(), IoError>)
    ensures
        is_tunnel_outcome(r, reply, unreadable@),
{
    match reply {
        TunnelReply::Accepted => Ok(()),
        TunnelReply::Refused => Err(
            IoError::new(
                IoErrorKind::ConnectionRefused,
                "Firecracker refused to establish a tunnel to the given guest port",
            ),
        ),
        TunnelReply::Unreadable => Err(io_input_err(unreadable)),
    }
}

/// What the tunnel handshake ends in, given the first line of Firecracker's answer (`None`
/// when none could be read).
pub fn authenticate_reply(line: Option<&str>) -> (r: Result<(), IoError>)
    ensures
        is_tunnel_outcome(r, tunnel_reply(opt_view(line)), "Could not read response"@),
{
    tunnel_outcome(read_tunnel_reply(line), "Could not read response")
}

} // verus!
