[package]
name = "questionnaire_rs"
version = "0.1.0"
edition = "2021"
publish = false

[dependencies]
actix = "0.10"
actix-broker = "0.3"
actix-cors = "0.5"
actix-http = "2"
actix-identity = "0.3"
actix-rt = "1"
actix-web = "3"
actix-web-actors = "3"
chrono = { version = "0.4", features = ["serde"] }
diesel = { version = "1.4", features = ["mysql", "r2d2", "chrono"] }
dotenv = "0.15"
env_logger = "0.8"
failure = "0.1"
futures = "0.3"
oxide-auth = "0.5"
oxide-auth-actix = "0.1"
rand = "=0.7.3"
serde = { version = "1", features = ["derive"] }
serde_json = "=1.0.154"
