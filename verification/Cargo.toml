[package]
name = "tabletbot"
version = "0.1.0"
edition = "2021"
publish = false

[dependencies]
serenity = { version = "0.11", default-features = false, features = ["builder", "cache", "client", "framework", "gateway", "http", "model", "standard_framework", "utils", "rustls_backend"] }
poise = "0.5"
serde = { version = "1", features = ["derive"] }
serde_json = "1"
tokio = { version = "1", features = ["macros", "rt-multi-thread", "signal"] }
octocrab = "0.18"
