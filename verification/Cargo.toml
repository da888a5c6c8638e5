[package]
name = "starter"
version = "0.1.0"
edition = "2021"
publish = false

[dependencies]
anyhow = "1"
axum = "*"
axum-prometheus = "*"
axum-valid = "*"
clap = { version = "4", features = ["derive", "env"] }
dotenvy = "*"
lazy_static = "1"
serde = { version = "1", features = ["derive"] }
serde_json = "1"
tokio = { version = "1", features = ["macros", "rt-multi-thread", "net"] }
tower = { version = "*", features = ["buffer", "limit", "timeout", "util"] }
tower-http = { version = "*", features = ["trace"] }
tracing = "0.1"
validator = { version = "*", features = ["derive"] }
