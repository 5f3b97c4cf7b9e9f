[package]
name = "keysync"
version = "0.1.0"
edition = "2021"
publish = false

[dependencies]
chrono = "0.4"
oauth2 = { version = "4", default-features = false, features = ["reqwest", "rustls-tls"] }
reqwest = { version = "0.11", default-features = false, features = ["blocking", "json", "rustls-tls"] }
serde = { version = "1", features = ["derive"] }
serde_json = "1"
dirs = "5"
