[package]
name = "teleport"
version = "0.1.0"
edition = "2021"
publish = false

[dependencies]
serde_json = "=1.0.151"
oauth1-request = "=0.6.1"
takecell = "=0.1.1"
serde = { version = "*", features = ["derive"] }
bincode = "1"
teloxide = { version = "=0.17.0", features = ["macros"] }
axum = "*"
tokio = { version = "*", features = ["full"] }
reqwest = { version = "*", features = ["multipart"] }
url = "*"
eyre = "*"
log = "*"
env_logger = "*"
dotenv = "*"
futures-util = "*"
