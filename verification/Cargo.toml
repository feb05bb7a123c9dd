[package]
name = "command_shim"
version = "0.1.0"
edition = "2021"
publish = false

[dependencies]
open = "*"
serde = { version = "1", features = ["derive"] }
serde_json = "1"
