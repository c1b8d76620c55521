[package]
name = "system_probe"
version = "0.1.0"
edition = "2021"
publish = false

[dependencies]
anyhow = "1"
procfs = { version = "0.17", default-features = false }
