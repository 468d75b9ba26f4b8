[package]
name = "tui_service"
version = "0.1.0"
edition = "2021"
publish = false

[dependencies]
backoff = "=0.4.0"
chrono = { version = "=0.4.45", default-features = false, features = ["clock", "std"] }
ratatui = "=0.30.2"
serde = { version = "=1.0.229", features = ["derive"] }
serde_json = "=1.0.154"
jsonc-parser = { version = "=0.34.0", features = ["serde"] }
uuid = { version = "=1.29.0", features = ["v4"] }
ratatui-interact = "*"
