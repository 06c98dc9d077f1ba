[package]
name = "chat_memory"
version = "0.1.0"
edition = "2021"
publish = false

[dependencies]
indexmap = "=2.14.2"
chrono = "=0.4.45"
chrono-tz = "=0.10.4"
regex = "=1.13.1"
serde = { version = "=1.0.229", features = ["derive"] }
serde_json = "=1.0.154"
anyhow = "1"
log = "0.4"
tokio = { version = "1", features = ["rt-multi-thread", "macros", "sync", "signal"] }
serenity = "0.12"
poise = "0.6"
rig-core = "=0.31.0"
