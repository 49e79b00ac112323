[package]
name = "folderbot_chat"
version = "0.1.0"
edition = "2021"
publish = false

[dependencies]
async-std = { version = "1", features = ["unstable", "tokio1"] }
async-trait = "0.1"
futures = "0.3"
lazy_static = "1"
rand = "0.8"
regex = "1"
reqwest = { version = "0.11", default-features = false }
rspotify = { version = "0.12", default-features = false, features = ["client-reqwest"] }
serde = { version = "1", features = ["derive"] }
