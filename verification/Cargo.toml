[package]
name = "snarkos-node"
version = "0.1.0"
edition = "2021"
publish = false

[dependencies]
colored = "2"
tokio = { version = "1", default-features = false, features = ["rt", "time"] }
tracing = { version = "0.1", default-features = false, features = ["std"] }
