[package]
name = "dprint-cmakefmt"
version = "0.1.0"
edition = "2021"
publish = false

[dependencies]
cmakefmt-rust = { version = "=2.4.0", default-features = false }
dprint-core = { version = "=0.75.0", default-features = false, features = ["wasm"] }
indexmap = "=2.14.2"
serde = { version = "=1.0.229", features = ["derive"] }
