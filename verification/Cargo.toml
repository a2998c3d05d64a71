[package]
name = "livekit-tui-client"
version = "0.1.0"
edition = "2021"
publish = false

[dependencies]
anyhow = "1"
axum = { version = "0.8", default-features = false, features = ["ws", "tokio", "http1"] }
crossterm = "0.28"
dirs = "6"
dotenvy = "0.15"
futures-util = "0.3"
jsonwebtoken = "9"
livekit = "*"
ratatui = "0.29"
serde = { version = "1", features = ["derive"] }
serde_json = "1"
terminal-pixel-animation = "0.4"
tokio = { version = "1", features = ["full"] }
toml = "0.8"
