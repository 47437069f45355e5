[package]
name = "artdb"
version = "0.1.0"
edition = "2021"
publish = false

[dependencies]
anyhow = "=1.0.104"
axum = "=0.8.9"
dotenv = "=0.15.0"
serde = { version = "=1.0.229", features = ["derive"] }
sqlx = { version = "=0.8.6", default-features = false, features = ["runtime-tokio", "mysql", "derive"] }
tokio = { version = "=1.53.2", features = ["rt-multi-thread", "macros", "net"] }
