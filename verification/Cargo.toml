[package]
name = "kv_bucket"
version = "0.1.0"
edition = "2021"
publish = false

[dependencies]
kv = "=0.24.0"
parking_lot = "=0.12.5"
