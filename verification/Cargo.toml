[package]
name = "terminate_relay"
version = "0.1.0"
edition = "2021"
publish = false

[dependencies]
anyhow = "1"
axum = { version = "0.7", features = ["ws"] }
axum-extra = { version = "0.9", features = ["typed-header"] }
clap = { version = "4", features = ["cargo"] }
env_logger = "0.11"
futures-util = "0.3"
global-hotkey = "0.6"
log = "0.4"
notify = "6"
reqwest = "0.12"
reqwest-websocket = "0.4"
serde = { version = "1", features = ["derive"] }
serde_json = "1"
sysinfo = "0.30"
tap = "1"
tokio = { version = "1", features = ["full"] }
toml = "0.8"
uuid = { version = "1", features = ["v4"] }
