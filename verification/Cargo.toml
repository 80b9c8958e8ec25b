[package]
name = "schedule_auth"
version = "0.1.0"
edition = "2021"
publish = false

[dependencies]
jwt = "0.16"
hmac = "0.12"
sha2 = "0.10"
uuid = { version = "1", features = ["v4", "serde"] }
chrono = { version = "0.4", features = ["serde"] }
bcrypt = "0.15"
actix-web = { version = "4", default-features = false, features = ["macros", "compress-gzip"] }
actix-service = "2"
actix-http = "3"
actix-rt = "2"
sqlx = { version = "0.8", default-features = false, features = ["postgres", "runtime-tokio", "uuid", "chrono"] }
deadpool-redis = "*"
redis = "*"
serde = { version = "1", features = ["derive"] }
serde_json = "1"
serde_repr = "0.1"
futures = "0.3"
log = "0.4"
env_logger = "0.11"
dotenv = "0.15"
listenfd = "1"
thiserror = "1"
anyhow = "1"
async-trait = "0.1"
indoc = "2"
