[package]
name = "entry_service"
version = "0.1.0"
edition = "2021"
publish = false

[dependencies]
uuid = { version = "1", features = ["v4"] }
actix-web = "4"
tokio = { version = "1", features = ["rt", "macros"] }
tokio-postgres = "0.7"
dotenv = "0.15"
env_logger = "0.11"
log = "0.4"

[dev-dependencies]
serde_json = "1"
