[package]
name = "messaging_dispatch"
version = "0.1.0"
edition = "2021"
publish = false

[dependencies]
async-trait = "0.1"
serde = { version = "1", features = ["derive"] }
wasmcloud-provider-sdk = { version = "=0.2.0", default-features = false }
