[package]
name = "monolith"
version = "0.1.0"
edition = "2021"
publish = false

[dependencies]
tokio = { version = "=1.53.2", features = ["sync", "rt-multi-thread", "macros", "time", "net"] }
serde = { version = "=1.0.229", features = ["derive"] }
axum = "=0.8.9"
dotenv = "=0.15.0"
tracing = "=0.1.44"
tracing-subscriber = "=0.3.23"
croner = "*"
chrono = "*"
