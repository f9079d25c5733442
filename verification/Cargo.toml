[package]
name = "circuit_breaker"
version = "0.1.0"
edition = "2021"
publish = false

[dependencies]
tokio = { version = "1", features = ["time"] }
tower-service = "0.3"
pin-project-lite = "0.2"
tracing = "0.1"
