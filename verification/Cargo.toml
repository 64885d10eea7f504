[package]
name = "ws_proxy_agent"
version = "0.1.0"
edition = "2021"
publish = false

[dependencies]
clap = { version = "4", features = ["cargo"] }
env_logger = "0.10"
futures-channel = "0.3"
futures-util = "0.3"
log = "0.4"
names = { version = "0.14", default-features = false }
rand = "0.8"
reqwest = { version = "0.11", features = ["blocking"] }
sentry = "0.31"
serde = { version = "1", features = ["derive"] }
serde_json = "1"
tokio = { version = "1", features = ["macros", "rt-multi-thread", "time"] }
tokio-tungstenite = { version = "0.20", features = ["native-tls"] }
