[package]
name = "chat_app"
version = "0.1.0"
edition = "2021"
publish = false

[dependencies]
regex = "=1.13.1"
ratatui = "=0.29.0"
uuid = { version = "=1.29.0", features = ["v4", "serde"] }
serde = { version = "=1.0.229", features = ["derive"] }
serde_bytes = "=0.11.19"
bincode = "=1.3.3"
backtrace = "=0.3.77"
anyhow = "=1.0.104"
thiserror = "=1.0.69"
image = "=0.25.10"
artem = "=3.0.0"
tui-textarea = "=0.7.0"
tokio = { version = "1", features = ["rt-multi-thread", "macros", "sync"] }
futures = "0.3"
warp = { version = "0.3", default-features = false, features = ["websocket"] }
portable-pty = "0.8"
