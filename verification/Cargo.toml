[package]
name = "oracle_plugin"
version = "0.1.0"
edition = "2021"
publish = false

[dependencies]
base64 = "0.22"
oracle = "0.6"
serde_json = "1"
