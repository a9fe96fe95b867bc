[package]
name = "ai_base"
version = "0.1.0"
edition = "2021"
publish = false

[dependencies]
anyhow = "1"
axum = "0.7"
candle-core = "0.9"
candle-nn = "0.9"
candle-transformers = "0.9"
chrono = "0.4"
dirs = "5"
futures-util = "0.3"
hf-hub = "0.4"
image = { version = "0.25", default-features = false, features = ["png", "jpeg"] }
rand = "0.8"
reqwest = { version = "0.12", default-features = false, features = ["json", "stream", "rustls-tls"] }
serde = { version = "1", features = ["derive"] }
serde_json = "1"
tokenizers = { version = "0.21", default-features = false, features = ["onig"] }
tokio = { version = "1", features = ["rt-multi-thread", "net", "sync"] }
tower-http = { version = "0.6", features = ["cors"] }
tracing = "0.1"
tracing-subscriber = { version = "0.3", features = ["env-filter"] }
urlencoding = "2"
