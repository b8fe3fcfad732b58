[package]
name = "mtld3d_core"
version = "0.1.0"
edition = "2021"
publish = false

[dependencies]
log = "0.4"
rustc-hash = "=2.1.3"
xxhash-rust = { version = "=0.8.19", features = ["xxh3"] }
