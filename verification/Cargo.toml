[package]
name = "bearer_auth"
version = "0.1.0"
edition = "2021"
publish = false

[dependencies]
actix-web = { version = "=4.18.1", default-features = false }
argon2 = { version = "=0.5.3", features = ["std"] }
chrono = { version = "=0.4.45", default-features = false, features = ["clock", "std"] }
deadpool-redis = "=0.14.0"
dotenvy = "=0.15.7"
futures = "=0.3.34"
image = { version = "=0.24.9", default-features = false }
meilisearch-sdk = "=0.22.1"
reqwest = { version = "=0.11.27", default-features = false }
serde = { version = "=1.0.229", features = ["derive"] }
serde_json = "=1.0.154"
sqlx = { version = "=0.6.3", default-features = false, features = ["runtime-tokio-rustls", "postgres"] }
thiserror = "=1.0.69"
zxcvbn = "=2.2.2"
