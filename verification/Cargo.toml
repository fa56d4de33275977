[package]
name = "sidecar_boot"
version = "0.1.0"
edition = "2021"
publish = false

[dependencies]
uuid = { version = "*", features = ["v4"] }
dirs = "*"
tokio = { version = "*", features = ["full"] }
