[package]
name = "miden_bridge"
version = "0.1.0"
edition = "2021"
publish = false

[dependencies]
hex = "0.4"
sha3 = "0.10"
once_cell = "1"
rand = "0.9"
tokio = { version = "1", default-features = false, features = ["rt-multi-thread", "sync", "time"] }
