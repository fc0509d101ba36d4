[package]
name = "auth_core"
version = "0.1.0"
edition = "2021"
publish = false

[dependencies]
argon2 = { version = "=0.5.3", features = ["std"] }
jsonwebtoken = { version = "=11.1.0", features = ["rust_crypto"] }
chrono = { version = "=0.4.45", features = ["clock", "serde"] }
uuid = { version = "=1.27.0", features = ["serde"] }
serde = { version = "=1.0.229", features = ["derive"] }
serde_json = "=1.0.151"
axum = "=0.8.9"
sqlx = { version = "=0.9.0", default-features = false, features = ["postgres", "runtime-tokio", "macros", "chrono", "uuid"] }
tokio = { version = "=1.53.2", features = ["rt-multi-thread", "macros", "net"] }
tower-http = { version = "=0.7.1", features = ["cors"] }
dotenvy = "=0.15.7"
utoipa = "=6.0.0"
