[package]
name = "chat_subs"
version = "0.1.0"
edition = "2021"
publish = false

[dependencies]
anyhow = "*"
futures = "*"
serde = { version = "*", features = ["derive"] }
serde_json = "*"
tokio = { version = "*", features = ["rt", "sync", "macros"] }
tracing = "*"
twitch_api = { version = "*", features = ["eventsub", "helix"] }
