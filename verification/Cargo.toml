[package]
name = "deskctl"
version = "0.1.0"
edition = "2021"
publish = false

[dependencies]
base64 = "0.21"
sysinfo = "0.29"
serde_json = "1"
