[package]
name = "thread_queue"
version = "0.1.0"
edition = "2021"
publish = false

[dependencies]
anyhow = "1"
chrono = { version = "0.4", default-features = false, features = ["std"] }
serde = "1"
serde_json = "1"
sqlx = { version = "0.8", default-features = false, features = ["sqlite", "runtime-tokio"] }
tokio = { version = "1", features = ["rt", "sync"] }

[dev-dependencies]
opentelemetry = { version = "*", default-features = false, features = ["metrics"] }
opentelemetry_sdk = { version = "*", default-features = false, features = ["metrics", "testing"] }
