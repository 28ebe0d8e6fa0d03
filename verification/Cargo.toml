[package]
name = "prefetch_hint"
version = "0.1.0"
edition = "2021"
publish = false

[dependencies]
cfg-if = "1"
