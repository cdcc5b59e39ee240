[package]
name = "family_service"
version = "0.1.0"
edition = "2021"
publish = false

[dependencies]
uuid = { version = "0.8", features = ["v4", "serde"] }
chrono = { version = "0.4", features = ["serde"] }
rand = "0.7"
serde = { version = "1", features = ["derive"] }
actix-web = "3"
actix-rt = "1"
diesel = { version = "1.4", features = ["postgres", "r2d2", "uuidv07", "chrono"] }
r2d2 = "0.8"
dotenv = "0.15"
env_logger = "0.8"
