[package]
name = "flashgate"
version = "0.1.0"
edition = "2021"
publish = false

[dependencies]
probe-rs = "=0.18.0"
