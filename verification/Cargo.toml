[package]
name = "abcdodaf"
version = "0.1.0"
edition = "2021"
publish = false

[dependencies]
serde = { version = "=1.0.229", features = ["derive"] }
serde_json = "=1.0.154"
chrono = { version = "=0.4.45", features = ["serde"] }
uuid = { version = "=1.29.0", features = ["v4", "serde"] }
anyhow = "1"
async-trait = "0.1"
thiserror = "1"
tracing = "0.1"
serde_yaml = "0.9"
tokio = { version = "1", features = ["sync", "rt-multi-thread", "macros", "time"] }
axum = "0.7"
sqlx = { version = "0.7", default-features = false, features = ["runtime-tokio", "postgres", "uuid", "chrono", "json", "macros"] }
reqwest = { version = "0.12", default-features = false, features = ["json"] }
