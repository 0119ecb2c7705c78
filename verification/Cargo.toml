[package]
name = "candidate_profiles"
version = "0.1.0"
edition = "2021"
publish = false

[dependencies]
anyhow = "1"
aws-sdk-s3 = "1"
axum = { version = "0.6", features = ["multipart", "macros"] }
axum-valid = "0.11"
chrono = { version = "0.4", features = ["serde"] }
dotenvy = "0.15"
reqwest = { version = "0.11", features = ["json"] }
serde = { version = "1", features = ["derive"] }
serde_json = "1"
sqlx = { version = "0.7", features = ["postgres", "runtime-tokio-rustls", "uuid", "chrono"] }
tokio = { version = "1", features = ["macros", "rt-multi-thread"] }
uuid = { version = "1", features = ["serde"] }
validator = { version = "0.16", features = ["derive", "phone"] }
