use vstd::prelude::*;
use vstd::utf8::*;

use crate::decimal::{
    decimal, lemma_decimal_digits, lemma_encode_ascii_char, lemma_parse_decimal, parse_u32,
    parse_u32_bytes, push_decimal,
};
use crate::error::{io_input_err, outcome_is, IoError};
use crate::hex_codec::{decode_hex, encode_hex, hex_decode, hex_encode, lemma_hex_roundtrip};
use crate::text::{
    extend_with_str, lemma_encode_utf8_append, lemma_rsplit_once_at, lemma_split_once_at,
    rsplit_once, rsplit_once_str, split_once, split_once_str, utf8_lossy, utf8_text,
};

verus! {

broadcast use {encode_utf8_valid_utf8, encode_utf8_decode_utf8};

/* The host part of a socket URI: the socket address, hex-encoded */

/// The host that names the Unix socket at `path`: the hex encoding of the path's UTF-8 bytes.
pub open spec fn unix_host(path: Seq<char>) -> Seq<char> {
    hex_encode(encode_utf8(path))
}

/// The host that names vsock port `port` of context `cid`: the hex encoding of `"{cid}.{port}"`.
pub open spec fn vsock_host(cid: u32, port: u32) -> Seq<char> {
    hex_encode(encode_utf8(decimal(cid as nat) + seq!['.'] + decimal(port as nat)))
}

/// The host that names guest port `port` behind the Firecracker socket at `path`: the hex
/// encoding of `"{path}:{port}"`.
pub open spec fn firecracker_host(path: Seq<char>, port: u32) -> Seq<char> {
    hex_encode(encode_utf8(path + seq![':'] + decimal(port as nat)))
}

/// The socket path that a Unix host names, or the message of the error.
pub open spec fn unix_path_of_host(host: Seq<char>) -> Result<Seq<char>, Seq<char>> {
    match hex_decode(encode_utf8(host)) {
        Some(bytes) => Ok(utf8_text(bytes)),
        None => Err("URI host must be hex"@),
    }
}

/// The context id and port that a vsock host names, or the message of the error.
pub open spec fn vsock_addr_of_host(host: Seq<char>) -> Result<(u32, u32), Seq<char>> {
    match hex_decode(encode_utf8(host)) {
        None => Err("URI host must be hex"@),
        Some(bytes) => match split_once(utf8_text(bytes), '.') {
            None => Err("URI host could not be split at . into 2 slices (CID, then port)"@),
            Some((cid_text, port_text)) => match parse_u32(encode_utf8(cid_text)) {
                None => Err("First split of URI (CID) can't be parsed"@),
                Some(cid) => match parse_u32(encode_utf8(port_text)) {
                    None => Err("Second split of URI (port) can't be parsed"@),
                    Some(port) => Ok((cid, port)),
                },
            },
        },
    }
}

/// The socket path and guest port that a Firecracker host names, or the message of the error.
pub open spec fn firecracker_target_of_host(host: Seq<char>) -> Result<(Seq<char>, u32), Seq<char>> {
    match hex_decode(encode_utf8(host)) {
        None => Err("URI host must be hex"@),
        Some(bytes) => match rsplit_once(utf8_text(bytes), ':') {
            None => Err("URI host could not be split in halves with a ."@),
            Some((path, port_text)) => match parse_u32(encode_utf8(port_text)) {
                None => Err("URI guest port could not converted to u32"@),
                Some(port) => Ok((path, port)),
            },
        },
    }
}

/* Encoding */

/// The host that names the Unix socket at `path`.
pub fn unix_host_text(path: &str) -> (r: String)
    ensures
        r@ == unix_host(path@),
{
    encode_hex(path.as_bytes())
}

/// The host that names vsock port `port` of context `cid`.
pub fn vsock_host_text(cid: u32, port: u32) -> (r: String)
    ensures
        r@ == vsock_host(cid, port),
{
    let mut text: Vec<u8> = Vec::new();
    push_decimal(&mut text, cid);
    text.push(0x2e);
    push_decimal(&mut text, port);
    proof {
        let c = decimal(cid as nat);
        let p = decimal(port as nat);
        lemma_encode_ascii_char('.');
        assert(encode_utf8(seq!['.']) =~= seq![0x2eu8]);
        lemma_encode_utf8_append(c, seq!['.']);
        lemma_encode_utf8_append(c + seq!['.'], p);
        assert(text@ =~= encode_utf8(c + seq!['.'] + p));
    }
    encode_hex(text.as_slice())
}

/// The host that names guest port `port` behind the Firecracker socket at `path`.
pub fn firecracker_host_text(path: &str, port: u32) -> (r: String)
    ensures
        r@ == firecracker_host(path@, port),
{
    let mut text: Vec<u8> = Vec::new();
    extend_with_str(&mut text, path);
    text.push(0x3a);
    push_decimal(&mut text, port);
    proof {
        let p = decimal(port as nat);
        lemma_encode_ascii_char(':');
        assert(encode_utf8(seq![':']) =~= seq![0x3au8]);
        lemma_encode_utf8_append(path@, seq![':']);
        lemma_encode_utf8_append(path@ + seq![':'], p);
        assert(text@ =~= encode_utf8(path@ + seq![':'] + p));
    }
    encode_hex(text.as_slice())
}

/* Decoding */

/// The socket path that a Unix host names.
pub fn decode_unix_host(host: &str) -> (res: Result<String, IoError>)
    ensures
        outcome_is(res, unix_path_of_host(host@)),
{
    match decode_hex(host) {
        Ok(bytes) => Ok(utf8_lossy(bytes.as_slice())),
        Err(_) => Err(io_input_err("URI host must be hex")),
    }
}

/// The context id and port that a vsock host names.
pub fn decode_vsock_host(host: &str) -> (res: Result<(u32, u32), IoError>)
    ensures
        outcome_is(res, vsock_addr_of_host(host@)),
{
    let bytes = match decode_hex(host) {
        Ok(bytes) => bytes,
        Err(_) => return Err(io_input_err("URI host must be hex")),
    };
    let full = utf8_lossy(bytes.as_slice());
    let (cid_text, port_text) = match split_once_str(full.as_str(), '.') {
        Some(parts) => parts,
        None => {
            return Err(
                io_input_err("URI host could not be split at . into 2 slices (CID, then port)"),
            )
        },
    };
    let cid = match parse_u32_bytes(cid_text.as_bytes()) {
        Some(cid) => cid,
        None => return Err(io_input_err("First split of URI (CID) can't be parsed")),
    };
    let port = match parse_u32_bytes(port_text.as_bytes()) {
        Some(port) => port,
        None => return Err(io_input_err("Second split of URI (port) can't be parsed")),
    };
    Ok((cid, port))
}

/// The socket path and guest port that a Firecracker host names.
pub fn decode_firecracker_host(host: &str) -> (res: Result<(String, u32), IoError>)
    ensures
        outcome_is(res, firecracker_target_of_host(host@)),
{
    let bytes = match decode_hex(host) {
        Ok(bytes) => bytes,
        Err(_) => return Err(io_input_err("URI host must be hex")),
    };
    let full = utf8_lossy(bytes.as_slice());
    let (path, port_text) = match rsplit_once_str(full.as_str(), ':') {
        Some(parts) => parts,
        None => return Err(io_input_err("URI host could not be split in halves with a .")),
    };
    let port = match parse_u32_bytes(port_text.as_bytes()) {
        Some(port) => port,
        None => return Err(io_input_err("URI guest port could not converted to u32")),
    };
    Ok((path.to_owned(), port))
}

/* Laws */

/// Decoding the host that names a Unix socket gives back the socket's path.
pub proof fn law_unix_host_roundtrip(path: Seq<char>)
    ensures
        unix_path_of_host(unix_host(path)) == Ok::<Seq<char>, Seq<char>>(path),
{
    lemma_hex_roundtrip(encode_utf8(path));
}

/// Decoding the host that names a vsock address gives back its context id and port.
pub proof fn law_vsock_host_roundtrip(cid: u32, port: u32)
    ensures
        vsock_addr_of_host(vsock_host(cid, port)) == Ok::<(u32, u32), Seq<char>>((cid, port)),
{
    let c = decimal(cid as nat);
    let p = decimal(port as nat);
    let text = c + seq!['.'] + p;
    lemma_hex_roundtrip(encode_utf8(text));
    lemma_decimal_digits(cid as nat);
    lemma_split_once_at(text, '.', c, p);
    lemma_parse_decimal(cid);
    lemma_parse_decimal(port);
}

/// Decoding the host that names a Firecracker guest port gives back the socket's path and the
/// port, whatever the path holds.
pub proof fn law_firecracker_host_roundtrip(path: Seq<char>, port: u32)
    ensures
        firecracker_target_of_host(firecracker_host(path, port)) == Ok::<(Seq<char>, u32), Seq<char>>(
            (path, port),
        ),
{
    let p = decimal(port as nat);
    let text = path + seq![':'] + p;
    lemma_hex_roundtrip(encode_utf8(text));
    lemma_decimal_digits(port as nat);
    lemma_rsplit_once_at(text, ':', path, p);
    lemma_parse_decimal(port);
}

} // verus!
