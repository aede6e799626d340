[package]
name = "gremlin_core"
version = "0.1.0"
edition = "2021"
publish = false

[dependencies]
bit-set = "=0.5.3"
