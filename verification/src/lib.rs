//! Client-side support for hyper over Unix, vsock and Firecracker sockets: the URIs that name
//! such sockets, the Firecracker tunnel handshake, and the decisions of a non-blocking vsock
//! connection.

pub mod error;

pub mod decimal;
pub mod hex_codec;
pub mod text;

pub mod host;
pub mod http_uri;

pub mod firecracker;
pub mod unix;
pub mod uri;
pub mod vsock;

pub mod backend;
pub mod vsock_connect;

pub use error::io_input_err;
