[package]
name = "linkly-tui"
version = "0.1.0"
edition = "2021"
publish = false

[dependencies]
anyhow = "=1.0.104"
crossterm = { version = "=0.28.1", features = ["event-stream"] }
csv = "=1.4.0"
futures = "=0.3.34"
image = { version = "=0.25.10", default-features = false, features = ["png", "jpeg"] }
qrcode = "=0.14.1"
ratatui = "=0.29.0"
reqwest = { version = "=0.12.28", default-features = false, features = ["json", "rustls-tls"] }
serde = { version = "=1.0.229", features = ["derive"] }
serde_json = "=1.0.154"
tokio = { version = "=1.54.1", features = ["full"] }
tui-input = "=0.11.1"
