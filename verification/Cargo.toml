[package]
name = "thought_auth"
version = "0.1.0"
edition = "2021"
publish = false

[dependencies]
argon2 = { version = "=0.5.3", features = ["std"] }
jsonwebtoken = "=9.3.1"
serde = { version = "=1.0.229", features = ["derive"] }
serde_json = { version = "=1.0.154", features = ["preserve_order"] }
uuid = { version = "=1.29.0", features = ["v4", "serde"] }
chrono = { version = "=0.4.45", features = ["serde"] }
actix-web = "=4.18.1"
actix-cors = "=0.7.2"
dotenv = "=0.15.0"
env_logger = "=0.11.11"
futures = "=0.3.34"
sqlx = { version = "=0.7.4", default-features = false, features = ["postgres", "runtime-tokio", "uuid", "chrono", "migrate"] }
