[package]
name = "loadgen"
version = "0.1.0"
edition = "2021"
publish = false

[dependencies]
rand = "0.8"
sentry = { version = "*", default-features = false }
sentry-tracing = "*"
tracing = "*"
tracing-subscriber = "*"
