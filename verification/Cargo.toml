[package]
name = "ibc_query_relay"
version = "0.1.0"
edition = "2021"
publish = false

[dependencies]
cosmwasm-std = { version = "=1.5.11", features = ["ibc3"] }
cw-utils = "=1.0.3"
serde = { version = "=1.0.229", features = ["derive"] }
