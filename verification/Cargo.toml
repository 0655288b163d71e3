[package]
name = "koochelib"
version = "0.1.0"
edition = "2021"
publish = false

[dependencies]
bcrypt = "=0.15.1"
jsonwebtoken = "=8.3.0"
rand = "=0.8.8"
chrono = "=0.4.45"
serde = { version = "=1.0.229", features = ["derive"] }
serde_json = "=1.0.154"
axum = { version = "=0.6.20", features = ["multipart"] }
tokio = { version = "=1.54.1", features = ["macros", "rt-multi-thread"] }
tower-http = { version = "=0.4.4", features = ["limit"] }
mongodb = { version = "=2.8.2", default-features = false, features = ["tokio-sync"] }
redis = { version = "=0.23.5", default-features = false }
reqwest = { version = "=0.11.27", default-features = false, features = ["json", "rustls-tls"] }
dotenv = "=0.15.0"
