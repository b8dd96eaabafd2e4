[package]
name = "wasmer_host"
version = "0.1.0"
edition = "2021"
publish = false

[dependencies]
anyhow = "=1.0.104"
bincode = "=1.3.3"
serde = { version = "=1.0.229", features = ["derive"] }
wasmer = "=7.0.1"
wasmer-compiler-cranelift = "=7.0.1"
