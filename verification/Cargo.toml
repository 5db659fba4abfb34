[package]
name = "mantencion"
version = "0.1.0"
edition = "2021"
publish = false

[dependencies]
serde_json = "1"
base64 = "0.22"
csv = "1"
calamine = "*"
