[package]
name = "pathfinder_core"
version = "0.1.0"
edition = "2021"
publish = false

[dependencies]
sha3 = "*"
serde = { version = "*", features = ["derive"] }
web3 = { version = "*", default-features = false }
