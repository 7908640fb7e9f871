[package]
name = "context_inspector"
version = "0.1.0"
edition = "2021"
publish = false

[dependencies]
sha2 = "0.10"
serde = { version = "1", features = ["derive"] }
serde_json = "1"
thiserror = "2"
tracing = "0.1"
ratatui = { version = "0.29", default-features = false }
schemars = "0.8"
ts-rs = "10"
