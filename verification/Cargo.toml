[package]
name = "native_primitives"
version = "0.1.0"
edition = "2021"
publish = false

[dependencies]
aes-gcm = "0.10"
ed25519-dalek = { version = "2", features = ["rand_core"] }
hex = "0.4"
napi = "2"
napi-derive = "2"
rand = "0.8"
sha2 = "0.10"
thiserror = "1"
zstd = "0.13"
