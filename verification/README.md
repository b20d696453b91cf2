# hyper_client_sockets

Client-side support for hyper over Unix, vsock and Firecracker sockets, verified with Verus.

A socket is named by a URI whose host is the hex encoding of the socket's address:
`unix://{hex(path)}/{url}`, `vsock://{hex("{cid}.{port}")}/{url}` and
`fc://{hex("{path}:{port}")}/{url}`. Firecracker sockets need a tunnel: the client writes
`CONNECT {port}\n` and Firecracker answers with a line that begins with `OK` when it accepts.

## Layout

- `src/` is the verified library.
  - `text.rs`, `decimal.rs`, `hex_codec.rs`: the text operations (leading-slash trimming,
    splitting at a separator, decimal numbers, hexadecimal) with their specifications and the
    facts about UTF-8 that the proofs use.
  - `host.rs`: writing and reading the host part of each kind of URI, with the round-trip laws.
  - `uri.rs`, `unix.rs`, `vsock.rs`, `firecracker.rs`: the URI extension traits on
    `http::Uri`, the URI texts, and the Firecracker tunnel handshake.
  - `vsock_connect.rs`, `backend.rs`: the decisions of a non-blocking vsock connection as a
    state machine, and the two backends.
  - `http_uri.rs`, `hex_codec.rs`, `text.rs` hold the calls into `http`, `hex` and std that the
    proofs take on trust; each says what it claims.
- `app/` is the I/O around the library: the `Backend` trait, the Tokio and async-io backends,
  the vsock streams and the hyper-util connectors.
- `tests/` exercises the library through its public functions.
