[package]
name = "marketplace"
version = "0.1.0"
edition = "2021"
publish = false

[dependencies]
sha2 = "=0.10.9"
uuid = { version = "=1.29.0", features = ["v4", "serde"] }
chrono = { version = "=0.4.45", features = ["serde"] }
bigdecimal = { version = "=0.3.1", features = ["serde"] }
serde = { version = "1", features = ["derive"] }
serde_json = "1"
sqlx = { version = "=0.7.4", default-features = false, features = ["runtime-tokio", "postgres", "uuid", "chrono", "bigdecimal"] }
redis = { version = "=0.24.1", features = ["tokio-comp"] }
axum = "=0.7.9"
tokio = { version = "1", features = ["full"] }
tower-http = { version = "=0.5.2", features = ["cors"] }
