[package]
name = "scaleit_bridge"
version = "0.1.0"
edition = "2021"
publish = false

[dependencies]
regex = "1"
chrono = { version = "0.4", features = ["serde"] }
serde = { version = "1", features = ["derive"] }
serde_json = "1"
tokio = { version = "1", features = ["full"] }
actix-web = "4"
actix-cors = "0.7"
actix-files = "0.6"
env_logger = "0.11"
log = "0.4"
serialport = { version = "4", default-features = false }
parking_lot = "0.12"
thiserror = "1"
dotenv = "0.15"
ctrlc = "3"
