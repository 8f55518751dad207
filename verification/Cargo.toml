[package]
name = "tracing_async2"
version = "0.1.0"
edition = "2021"
publish = false

[dependencies]
serde = { version = "1", features = ["derive"] }
serde_json = "1"
tracing = "0.1"
tracing-subscriber = { version = "0.3", default-features = false, features = ["registry", "std"] }
tokio = { version = "1", features = ["sync", "rt"] }
syn = { version = "2", features = ["full"] }
quote = "1"
proc-macro2 = "1"
