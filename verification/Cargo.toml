[package]
name = "catbot"
version = "0.1.0"
edition = "2021"
publish = false

[dependencies]
serde_json = "1"
chrono = "0.4"
serenity = "*"
tokio = { version = "1", features = ["macros", "rt-multi-thread", "signal"] }
reqwest = { version = "*", default-features = false, features = ["rustls-tls"] }
dotenv = "0.15"
tracing = "0.1"
tracing-subscriber = "0.3"
