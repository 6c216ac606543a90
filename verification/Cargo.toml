[package]
name = "web_chat_app"
version = "0.1.0"
edition = "2021"
publish = false

[dependencies]
jsonwebtoken = { version = "=11.1.0", features = ["rust_crypto"] }
serde_json = "=1.0.151"
bcrypt = "=0.19.3"
email_address = "=0.2.9"
tokio = { version = "=1.53.2", features = ["sync", "rt-multi-thread", "macros", "time"] }
axum = "=0.8.9"
tower-cookies = { version = "=0.11.0", features = ["private"] }
sqlx = { version = "=0.8.6", default-features = false, features = ["runtime-tokio-rustls", "postgres", "chrono", "macros"] }
chrono = "=0.4.45"
hex = "=0.4.3"
dotenvy = "=0.15.7"
serde = { version = "=1.0.229", features = ["derive"] }
http = "=1.5.0"
futures = "=0.3.34"
async-stream = "=0.3.6"
lettre = { version = "=0.11.23", default-features = false, features = ["smtp-transport", "builder"] }
