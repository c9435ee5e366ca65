[package]
name = "hft_executor"
version = "0.1.0"
edition = "2021"
publish = false

[dependencies]
ring = "*"
base64 = "*"
chrono = "*"
uuid = { version = "*", features = ["v4"] }
serde_json = "*"
reqwest = { version = "*", default-features = false, features = ["json"] }
tokio = { version = "*", features = ["macros", "rt-multi-thread", "time"] }
tokio-tungstenite = "*"
futures-util = "*"
log = "*"
env_logger = "*"
dotenv = "*"
tokio-retry = "*"
