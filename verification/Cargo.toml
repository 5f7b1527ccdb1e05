[package]
name = "rig_tool"
version = "0.1.0"
edition = "2021"
publish = false

[dependencies]
futures = "0.3"
rmcp = { version = "=0.8.5", features = ["client"] }
serde = { version = "1", features = ["derive"] }
serde_json = "=1.0.154"
thiserror = "2"
tracing = "0.1"
