[package]
name = "hyper_client_sockets"
version = "0.1.0"
edition = "2021"
publish = false

[dependencies]
hex = "=0.4.3"
http = "=1.5.0"
hyper = { version = "=1.12.0", features = ["client", "http1"] }
hyper-util = { version = "=0.1.21", features = ["client-legacy", "tokio"] }
tokio = { version = "=1.54.1", features = ["net", "rt", "io-util"] }
vsock = "=0.5.5"
async-io = "=2.6.0"
smol-hyper = "=0.1.1"
futures-lite = "=2.6.1"
tower-service = "=0.3.3"
libc = "=0.2.191"
