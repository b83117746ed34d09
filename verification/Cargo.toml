[package]
name = "chat"
version = "0.1.0"
edition = "2021"
publish = false

[dependencies]
chrono = "=0.4.45"
dashmap = "=6.2.1"
tokio = { version = "=1.53.2", features = ["sync", "rt-multi-thread", "net", "time", "macros"] }
axum = "=0.8.9"
futures = "*"
serde = { version = "*", features = ["derive"] }
serde_json = "*"
serde_yaml = "*"
sqlx = { version = "=0.9.0", default-features = false, features = ["postgres", "runtime-tokio"] }
tokio-stream = { version = "=0.1.19", features = ["sync"] }
