[package]
name = "llm"
version = "0.1.0"
edition = "2021"
publish = false

[dependencies]
uuid = { version = "=1.29.0", features = ["v4"] }
serde = { version = "=1.0.229", features = ["derive"] }
serde_json = { version = "=1.0.154", features = ["preserve_order"] }
anyhow = "=1.0.104"
log = "=0.4.35"
http = "=1.5.0"
axum = "=0.8.9"
reqwest = { version = "=0.12.28", default-features = false, features = ["json", "stream"] }
futures = "=0.3.34"
eventsource-stream = "=0.2.3"
aws-smithy-types = "=1.9.1"
aws-sdk-bedrockruntime = { version = "=1.153.0", default-features = false }
aws-sdk-bedrock = { version = "1", default-features = false }
secrecy = "=0.10.3"
async-trait = "=0.1.92"
