[package]
name = "discord_auth"
version = "0.1.0"
edition = "2021"
publish = false

[dependencies]
oauth2 = "4.4"
reqwest = { version = "0.11", features = ["json"] }
serde = { version = "1", features = ["derive"] }
serde_json = "1"
url = "2"
