[package]
name = "api_client"
version = "0.1.0"
edition = "2021"
publish = false

[dependencies]
reqwest = { version = "0.12", default-features = false, features = ["json"] }
serde = "1"
thiserror = "1"
url = "2"

[dev-dependencies]
serde_json = "1"
