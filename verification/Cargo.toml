[package]
name = "benchmarking_cli"
version = "0.1.0"
edition = "2021"
publish = false

[dependencies]
miden-air = { version = "=0.23.5", default-features = false, features = ["std"] }
miden-vm = { version = "=0.23.5", default-features = false, features = ["std"] }
serde_json = "1"
