[package]
name = "pty_bridge"
version = "0.1.0"
edition = "2021"
publish = false

[dependencies]
crossbeam = "0.8"
portable-pty = "*"
serde = { version = "1", features = ["derive"] }
serde_json = "1"
