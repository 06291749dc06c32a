[package]
name = "voicebot"
version = "0.1.0"
edition = "2021"
publish = false

[dependencies]
rust-ini = "0.18"
serenity = "0.10"
songbird = "0.2"
tokio = { version = "1", features = ["macros", "rt-multi-thread"] }
openweathermap = "0.2"
tracing-subscriber = "0.2"
