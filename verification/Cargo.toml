[package]
name = "oura_api"
version = "0.1.0"
edition = "2021"
publish = false

[dependencies]
form_urlencoded = "1"
reqwest = { version = "0.11", features = ["blocking", "json"] }
serde = { version = "1", features = ["derive"] }
serde_json = "1"

[dev-dependencies]
mockito = "1"
