[package]
name = "omnibox"
version = "0.1.0"
edition = "2021"
publish = false

[dependencies]
serde_json = "*"
hex = "*"
tokio = { version = "*", features = ["rt-multi-thread", "macros", "time", "sync"] }
async-trait = "*"
near-jsonrpc-client = "*"
near-jsonrpc-primitives = "*"
near-primitives = "*"
near-crypto = "*"
