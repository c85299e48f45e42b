[package]
name = "tracing_callgraph"
version = "0.1.0"
edition = "2021"
publish = false

[dependencies]
petgraph = "*"
tracing = "*"
tracing-subscriber = "*"
