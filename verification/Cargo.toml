[package]
name = "near_sdk_core"
version = "0.1.0"
edition = "2021"
publish = false

[dependencies]
serde = { version = "1", features = ["derive"] }
serde_json = "1"
schemars = "0.8"
borsh = { version = "1", features = ["unstable__schema"] }
syn = { version = "2", features = ["full"] }
