[package]
name = "webcrypt"
version = "0.1.0"
edition = "2021"
publish = false

[dependencies]
heapless-bytes = "=0.3.0"
serde = { version = "=1.0.229", default-features = false, features = ["derive"] }
serde-indexed = "=0.1.1"
cbor-smol = { version = "=0.5.1", features = ["heapless-bytes-v0-3"] }
trussed-core = "=0.2.3"
