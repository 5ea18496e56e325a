[package]
name = "libtaos"
version = "0.4.0"
edition = "2021"
publish = false

[dependencies]
chrono = "0.4"
serde_json = "1"
lazy_static = "1"
derive_builder = "*"
r2d2 = "*"
