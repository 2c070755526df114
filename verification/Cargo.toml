[package]
name = "uwb_core"
version = "0.1.0"
edition = "2021"
publish = false

[dependencies]
log = "0.4"
protobuf = "2"
tokio = { version = "1", features = ["full"] }
zeroize = "1"
