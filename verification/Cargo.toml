[package]
name = "mintlayer_app"
version = "0.1.0"
edition = "2021"
publish = false

[dependencies]
parity-scale-codec = { version = "3.7", default-features = false, features = ["derive"] }
bech32 = { version = "0.11", default-features = false, features = ["alloc"] }
chrono = { version = "0.4", default-features = false, features = ["alloc"] }
const-hex = { version = "1", default-features = false, features = ["alloc"] }
hex = { version = "0.4", default-features = false, features = ["alloc"] }
ledger_device_sdk = "1.42"
ledger_secure_sdk_sys = "1.18"
include_gif = "1.3"
