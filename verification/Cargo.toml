[package]
name = "rustcommerce"
version = "0.1.0"
edition = "2021"
publish = false

[dependencies]
rust_decimal = { version = "1", features = ["serde"] }
chrono = { version = "0.4", features = ["serde"] }
slug = "0.1"
validator = { version = "0.18", features = ["derive"] }
uuid = { version = "1", features = ["v4", "serde"] }
serde = { version = "1", features = ["derive"] }
serde_json = "1"
thiserror = "1"
anyhow = "1"
tokio = { version = "1", features = ["full"] }
tracing = "0.1"
axum = "0.8"
sqlx = { version = "0.8", default-features = false, features = ["runtime-tokio", "postgres", "uuid", "chrono", "rust_decimal", "macros", "migrate", "json"] }
async-stripe = { version = "*", default-features = false, features = ["runtime-tokio-hyper-rustls", "webhook-events"] }

[dev-dependencies]
hmac = "0.12"
sha2 = "0.10"
hex = "0.4"
