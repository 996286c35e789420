[package]
name = "flomon_service"
version = "0.1.0"
edition = "2021"
publish = false

[dependencies]
chrono = "0.4"
postgres = { version = "0.19", features = ["with-chrono-0_4"] }
reqwest = { version = "0.12", default-features = false, features = ["blocking", "json", "rustls-tls"] }
serde = { version = "1", features = ["derive"] }
serde_json = "1"
