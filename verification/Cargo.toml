[package]
name = "lite_rpc"
version = "0.1.0"
edition = "2021"
publish = false

[dependencies]
dashmap = "*"
crossbeam-channel = "*"
serde_json = "*"
tokio = { version = "*", features = ["sync"], default-features = false }
