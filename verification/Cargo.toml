[package]
name = "plugin_host"
version = "0.1.0"
edition = "2021"
publish = false

[dependencies]
serde_json = "=1.0.154"
uuid = { version = "=1.29.0", features = ["v7"] }
serde = { version = "=1.0.229", features = ["derive"] }
tokio = { version = "=1.54.1", features = ["full"] }
is_executable = "=1.0.6"
tracing = "=0.1.44"
futures = "=0.3.34"
async-stream = "=0.3.6"
async-openai = { version = "=0.42.2", features = ["chat-completion"] }
axum = "=0.8.9"
clap = { version = "4", features = ["derive"] }
