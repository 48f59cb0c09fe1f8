[package]
name = "spdx"
version = "0.1.0"
edition = "2021"
publish = false

[dependencies]
smallvec = "1"
serde_json = "1"
anyhow = "1"
