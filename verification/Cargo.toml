[package]
name = "diagnostics_bridge"
version = "0.1.0"
edition = "2021"
publish = false

[dependencies]
anyhow = "1"
dhat = "*"
tracing-chrome = "*"
tracing-subscriber = "0.3"
