[package]
name = "user_auth"
version = "0.1.0"
edition = "2021"
publish = false

[dependencies]
jsonwebtoken = "8"
serde_json = "1"
serde = { version = "1", features = ["derive"] }
rust-argon2 = "1.0"
rand = "0.8"
chrono = { version = "0.4", features = ["serde"] }
uuid = { version = "0.8", features = ["v4", "serde"] }
actix-web = "4"
actix-cors = "0.6"
futures-util = "0.3"
derive_more = "0.99"
validator = { version = "0.16", features = ["derive"] }
diesel = { version = "1.4", features = ["postgres", "r2d2", "uuidv07", "chrono"] }
diesel_migrations = "1.4"
dotenv = "0.15"
env_logger = "0.10"
log = "0.4"
r2d2 = "0.8"
