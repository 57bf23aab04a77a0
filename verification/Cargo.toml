[package]
name = "onnx_optimizer_rs"
version = "0.1.0"
edition = "2021"
publish = false

[dependencies]
petgraph = "*"
prost = { version = "*", features = ["derive"] }
thiserror = "*"
indicatif = "*"
sysinfo = "*"
