[package]
name = "driver_update"
version = "0.1.0"
edition = "2021"
publish = false

[dependencies]
ed25519-dalek = { version = "2", features = ["rand_core"] }
hex = "0.4"
libloading = "0.8"
rand = "0.8"
sha2 = "0.10"
thiserror = "2"
tracing = "0.1"
