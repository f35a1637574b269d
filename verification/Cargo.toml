[package]
name = "inventory_boundary"
version = "0.1.0"
edition = "2021"
publish = false

[dependencies]
napi = { version = "=3.14.2", features = ["napi6"] }
