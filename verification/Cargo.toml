[package]
name = "memebot"
version = "0.1.0"
edition = "2021"
publish = false

[dependencies]
rand = "0.8"
serenity = { version = "0.11", features = ["collector"] }
tokio = { version = "1", features = ["macros", "rt-multi-thread", "signal", "time"] }
tracing = "0.1"
tracing-subscriber = "0.3"
dotenv = "0.15"
roux = "2"
reqwest = { version = "0.11", features = ["json"] }
serde = { version = "1", features = ["derive"] }
serde_json = "1"
