[package]
name = "auth_service"
version = "0.1.0"
edition = "2021"
publish = false

[dependencies]
validator = "0.16"
uuid = { version = "1", features = ["v4"] }
rand = "0.8"
argon2 = "0.5"
jsonwebtoken = "9"
chrono = { version = "0.4", default-features = false, features = ["clock"] }
serde_json = "1"
serde = { version = "1", features = ["derive"] }
axum = "0.7"
axum-extra = { version = "0.9", features = ["cookie"] }
tokio = { version = "1", features = ["rt-multi-thread", "macros", "net"] }
tower-http = { version = "0.5", features = ["trace", "cors", "fs"] }
sqlx = { version = "0.8", default-features = false, features = ["runtime-tokio", "postgres"] }
redis = "0.25"
secrecy = "0.8"
dotenv = "0.15"
tracing = "0.1"
tracing-subscriber = { version = "0.3", features = ["env-filter"] }
tracing-error = "0.2"
