[package]
name = "ai_provider_sdk"
version = "0.1.0"
edition = "2021"
publish = false

[dependencies]
ring = "0.17"
url = "2"
serde = { version = "1", features = ["derive"] }
serde_json = "1"
reqwest = { version = "0.12", default-features = false, features = ["json", "multipart", "stream"] }
tokio = { version = "1", features = ["time"] }
bytes = "1"
futures-util = "0.3"
uuid = { version = "1", features = ["v4"] }
http = "1"
thiserror = "2"
