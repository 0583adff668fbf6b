[package]
name = "rzd_trains"
version = "0.1.0"
edition = "2021"
publish = false

[dependencies]
chrono = "0.4"
log = "0.4"
reqwest = { version = "0.11", features = ["blocking", "cookies", "json"] }
serde = { version = "1", features = ["derive"] }
serde_json = "1"
url = "2"
