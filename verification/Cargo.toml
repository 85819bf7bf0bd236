[package]
name = "booth_organizer"
version = "0.1.0"
edition = "2021"
publish = false

[dependencies]
anyhow = "1"
chrono = "0.4"
dirs = "*"
encoding_rs = "0.8"
env_logger = "*"
log = "0.4"
regex = "1"
reqwest = "0.12"
rusqlite = "*"
schemars = "*"
scraper = "*"
serde = { version = "1", features = ["derive"] }
serde_json = "1"
thiserror = "1"
tokio = { version = "1", features = ["macros", "rt-multi-thread", "time"] }
ts-rs = "*"
url = "2"
zip = { version = "*", default-features = false, features = ["deflate"] }
