[package]
name = "user_accounts"
version = "0.1.0"
edition = "2021"
publish = false

[dependencies]
bcrypt = "=0.8.2"
bson = "=1.2.4"
regex = "=1.13.1"
validator = "=0.10.1"
jsonwebtoken = "=7.2.0"
serde = { version = "=1.0.229", features = ["derive"] }
actix-web = "3"
actix-rt = "=1.1.1"
mongodb = { version = "=1.2.5", default-features = false, features = ["sync"] }
chrono = "=0.4.45"
dotenv = "=0.15.0"
env_logger = "=0.7.1"
futures = "=0.3.34"
