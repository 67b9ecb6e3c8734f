[package]
name = "mmorpg-fleet"
version = "0.1.0"
edition = "2021"
publish = false

[dependencies]
anyhow = "1"
async-stream = "0.3"
async-trait = "0.1"
axum = "0.7"
bevy = { version = "0.15", default-features = false }
bytes = "1"
clap = { version = "4", features = ["derive"] }
dotenvy = "0.15"
eventsource-stream = "0.2"
futures = "0.3"
futures-util = "0.3"
hostname = "0.4"
redis = { version = "0.27", features = ["tokio-comp", "connection-manager", "script"] }
reqwest = { version = "0.12", default-features = false, features = ["json", "stream"] }
serde = { version = "1", features = ["derive"] }
serde_json = "1"
tokio = { version = "1", features = ["full"] }
tracing = "0.1"
tracing-subscriber = { version = "0.3", features = ["env-filter"] }
urlencoding = "2"
uuid = { version = "1", features = ["v4"] }
