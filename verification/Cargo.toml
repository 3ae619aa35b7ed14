[package]
name = "rust_af_xdp"
version = "0.1.0"
edition = "2021"
publish = false

[dependencies]
libbpf-sys = "=0.6.2"
libc = "=0.2.191"
nix = "=0.26.4"
mio = "=0.6.23"
tokio = { version = "=0.2.25", features = ["io-driver", "io-util", "rt-core", "rt-threaded", "rt-util", "macros", "sync", "stream"] }
futures = "=0.3.34"
sysconf = "=0.3.4"
