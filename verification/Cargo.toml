[package]
name = "uchimizu"
version = "0.1.0"
edition = "2021"
publish = false

[dependencies]
chrono = { version = "0.4", default-features = false, features = ["now", "serde"] }
serde = { version = "1", features = ["derive"] }
