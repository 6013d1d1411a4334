[package]
name = "vex_bridge"
version = "0.1.0"
edition = "2021"
publish = false

[dependencies]
rquickjs = { version = "*", features = ["loader"] }
vex-sdk = "*"
vexide = "*"
