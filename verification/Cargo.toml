[package]
name = "weather"
version = "0.1.0"
edition = "2021"
publish = false

[dependencies]
anyhow = "1"
axum = "*"
reqwest = { version = "*", default-features = false, features = ["json", "rustls-tls"] }
rmcp = { version = "*", features = ["server", "transport-streamable-http-server"] }
serde = { version = "1", features = ["derive"] }
tokio = { version = "1", features = ["macros", "rt-multi-thread", "signal", "net"] }
tracing = "0.1"
tracing-subscriber = { version = "0.3", features = ["env-filter"] }
