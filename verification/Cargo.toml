[package]
name = "twitch_client"
version = "0.1.0"
edition = "2021"
publish = false

[dependencies]
url = "2"
serde = { version = "1", features = ["derive"] }
serde_json = "1"
serde_urlencoded = "0.7"
reqwest = { version = "0.11", default-features = false, features = ["json"] }
oauth2 = { version = "4", default-features = false, features = ["reqwest"] }
async-trait = "0.1"
tokio = { version = "1", features = ["time"] }
