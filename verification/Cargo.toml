[package]
name = "crane"
version = "0.1.0"
edition = "2021"
publish = false

[dependencies]
inkwell = { version = "0.2.0", features = ["llvm15-0"] }
smol_str = "*"
thin-vec = "*"
tracing = "*"
