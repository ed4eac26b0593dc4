[package]
name = "lunnama"
version = "0.1.0"
edition = "2021"
publish = false

[dependencies]
llama-cpp-2 = "*"
anyhow = "1"
thiserror = "*"
tracing = "0.1"
