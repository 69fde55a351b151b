[package]
name = "codex_sdk"
version = "0.1.0"
edition = "2021"
publish = false

[dependencies]
anyhow = "1"
codex-app-server-protocol = "0.63.0"
codex-protocol = "0.63.0"
dotenvy = "0.15"
serde = { version = "1", features = ["derive"] }
serde_json = "1"
thiserror = "2"
tokio = { version = "1", features = ["macros", "rt", "rt-multi-thread", "sync", "time"] }
tokio-stream = "0.1"
tracing = "0.1"
tracing-subscriber = { version = "0.3", features = ["env-filter"] }
