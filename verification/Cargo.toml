[package]
name = "serenity_model"
version = "0.1.0"
edition = "2021"
publish = false

[dependencies]
chrono = { version = "0.4", default-features = false, features = ["std", "serde"] }
parking_lot = "*"
serde = { version = "1", features = ["derive"] }
serde_json = "1"
