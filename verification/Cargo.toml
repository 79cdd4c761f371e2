[package]
name = "haproxy_api"
version = "0.1.0"
edition = "2021"
publish = false

[dependencies]
mlua = { version = "=0.12.2", features = ["lua54", "vendored", "async", "error-send"] }
libc = "=0.2.191"
tokio = { version = "=1.54.1", features = ["rt-multi-thread", "net", "io-util", "sync"] }
dashmap = "=6.2.1"
futures-util = { version = "=0.3.34", default-features = false, features = ["std"] }
pin-project-lite = "=0.2.17"
rustc-hash = "=2.1.3"
