[package]
name = "finplan"
version = "0.1.0"
edition = "2021"
publish = false

[dependencies]
rmcp = { version = "*", features = ["server", "transport-io"] }
tokio = { version = "1", features = ["macros", "rt-multi-thread", "io-std"] }
serde_json = "1"
anyhow = "1"
tracing = "0.1"
tracing-subscriber = { version = "0.3", features = ["env-filter"] }
