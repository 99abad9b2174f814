[package]
name = "auth_core"
version = "0.1.0"
edition = "2021"
publish = false

[dependencies]
argon2 = "0.5"
jsonwebtoken = "9"
rand = "0.8"
serde_json = "1"
time = "0.3"
uuid = { version = "1", features = ["v4"] }
anyhow = "1"
axum = "0.8"
axum-extra = { version = "0.10", features = ["cookie"] }
clap = { version = "4", features = ["derive", "env"] }
deadpool = "0.12"
dotenv = "0.15"
env_logger = "0.11"
log = "0.4"
mail-send = "0.5"
serde = { version = "1", features = ["derive"] }
sqlx = { version = "0.8", default-features = false, features = ["runtime-tokio", "postgres", "uuid"] }
thiserror = "2"
tokio = { version = "1", features = ["full"] }
