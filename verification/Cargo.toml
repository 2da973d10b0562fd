[package]
name = "weather-discord-bot"
version = "0.1.0"
edition = "2021"
publish = false

[dependencies]
anyhow = "1"
reqwest = { version = "0.11", default-features = false, features = ["json"] }
serde = { version = "1", features = ["derive"] }
serde_json = "1"
serenity = { version = "0.11", default-features = false, features = ["client", "gateway", "rustls_backend", "model"] }
shuttle-secrets = "0.8"
shuttle-service = { version = "0.8", features = ["bot-serenity"] }
tokio = { version = "1", features = ["macros", "rt-multi-thread"] }
tracing = "0.1"
