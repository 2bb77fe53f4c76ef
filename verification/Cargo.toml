[package]
name = "chat_cli"
version = "0.1.0"
edition = "2021"
publish = false

[dependencies]
async-trait = "0.1"
axum = { version = "0.7", features = ["ws"] }
eyre = "0.6"
futures = "0.3"
glob = "0.3"
owo-colors = "4"
serde = { version = "1", features = ["derive"] }
serde_json = "1"
tokio = { version = "1", features = ["full"] }
tokio-util = "0.7"
tower-http = { version = "0.5", features = ["cors", "fs"] }
tracing = "0.1"
uuid = { version = "1", features = ["v4", "serde"] }
