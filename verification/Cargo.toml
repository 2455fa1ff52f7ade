[package]
name = "petcache"
version = "0.1.0"
edition = "2021"
publish = false

[dependencies]
base64 = "=0.23.1"
image = "=0.24.9"
petpet = "=2.4.3"
actix-web = "*"
reqwest = { version = "*", default-features = false }
tokio = { version = "*", features = ["sync", "rt-multi-thread", "macros"] }
serde = { version = "*", features = ["derive"] }
log = "*"
env_logger = "*"
colored = "*"
dotenv = "*"
