[package]
name = "meshcore_companion"
version = "0.1.0"
edition = "2021"
publish = false

[dependencies]
MeshCore = "0.0.1"
memchr = { version = "2", default-features = false }
modular-bitfield = "*"
strum = { version = "*", default-features = false, features = ["derive"] }
