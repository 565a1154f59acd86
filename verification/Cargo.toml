[package]
name = "bp3d_net"
version = "0.1.0"
edition = "2021"
publish = false

[dependencies]
tokio = { version = "1", features = ["full"] }
tempfile = "3"
bp3d-debug = "*"
