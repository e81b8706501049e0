[package]
name = "vrcapi-proxy"
version = "0.1.0"
edition = "2021"
publish = false

[dependencies]
aho-corasick = "1"
base64 = "0.22"
percent-encoding = "2"
anyhow = "1"
axum = { version = "0.7", features = ["ws"] }
tokio = { version = "1", features = ["full"] }
serde = { version = "1", features = ["derive"] }
serde_json = "1"
reqwest = { version = "0.12", default-features = false, features = ["json", "rustls-tls"] }
tokio-tungstenite = { version = "0.21", default-features = false, features = ["connect", "rustls-tls-webpki-roots"] }
futures = "0.3"
uuid = { version = "1", features = ["v4"] }
chrono = "0.4"
dirs-2 = "3"
tower-http = { version = "0.5", features = ["cors"] }
