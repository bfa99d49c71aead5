[package]
name = "wasp"
version = "0.1.0"
edition = "2021"
publish = false

[dependencies]
anyhow = "1"
attohttpc = { version = "*", default-features = false }
hyper = { version = "0.14", features = ["full"] }
num_cpus = "1"
structopt = "0.3"
tokio = { version = "1", features = ["full"] }
wasmer = "2"
wasmer-compiler-cranelift = "2"
wasmer-engine-universal = "2"
wasmer-wasi = "2"
