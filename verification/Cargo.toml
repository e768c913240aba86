[package]
name = "zero2prod"
version = "0.1.0"
edition = "2021"
publish = false

[dependencies]
rand = "0.8"
uuid = { version = "1", features = ["v4"] }
argon2 = "0.5"
chrono = { version = "0.4", default-features = false, features = ["clock"] }
