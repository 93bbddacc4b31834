[package]
name = "tiny_vsock"
version = "0.1.0"
edition = "2021"
publish = false

[dependencies]
anyhow = "1"
nix = { version = "0.29", features = ["socket", "net", "fs"] }
tracing = "0.1"
