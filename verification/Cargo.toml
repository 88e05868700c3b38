[package]
name = "kamela_bot"
version = "0.1.0"
edition = "2021"
publish = false

[dependencies]
serde_json = "*"
serenity = "*"
reqwest = { version = "*", default-features = false, features = ["rustls-tls"] }
tokio = { version = "*", features = ["rt-multi-thread", "macros"] }
