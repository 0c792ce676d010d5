[package]
name = "function_codegen"
version = "0.1.0"
edition = "2021"
publish = false

[dependencies]
tracing = { version = "0.1.44", default-features = false, features = ["std"] }
