[package]
name = "convo"
version = "0.1.0"
edition = "2021"
publish = false

[dependencies]
uuid = { version = "=1.29.0", features = ["v4"] }
async-openai = { version = "=0.43.0", features = ["chat-completion"] }
directories = "=6.0.0"
futures = "=0.3.34"
hf-hub = { version = "=0.5.0", features = ["tokio"] }
reqwest = { version = "=0.13.5", features = ["stream"] }
rusqlite = { version = "=0.41.1", features = ["bundled"] }
sipper = "=0.2.1"
thiserror = "=2.0.21"
tokio = { version = "=1.54.1", features = ["full"] }
tracing = "=0.1.44"
tracing-subscriber = "=0.3.23"
