[package]
name = "tokio_vsock"
version = "0.1.0"
edition = "2021"
publish = false

[dependencies]
tokio = { version = "=0.2.25", features = ["io-driver", "io-util", "stream"] }
mio = "=0.6.23"
futures = "=0.3.34"
nix = "=0.15.0"
vsock = "=0.1.5"
libc = "=0.2.191"
