[package]
name = "liquidity_layer"
version = "0.1.0"
edition = "2021"
publish = false

[dependencies]
anchor-lang = { version = "0.28.0", features = ["init-if-needed"] }
anchor-spl = { version = "0.28.0", default-features = false, features = ["token"] }
cfg-if = "=1.0.5"
ruint = { version = "=1.21.1", default-features = false }
wormhole-raw-vaas = { version = "=0.1.3", default-features = false }
