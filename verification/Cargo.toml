[package]
name = "odin_zed"
version = "0.1.0"
edition = "2021"
publish = false

[dependencies]
base64 = "0.22"
serde_json = "1"
zed_extension_api = "0.7"
