[package]
name = "tracing_tracy"
version = "0.1.0"
edition = "2021"
publish = false

[dependencies]
tracing-core = "*"
tracing-subscriber = "*"
