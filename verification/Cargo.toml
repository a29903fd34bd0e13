[package]
name = "auth_engine"
version = "0.1.0"
edition = "2021"
publish = false

[dependencies]
serde = { version = "1", features = ["derive"] }
serde_json = "1"
sha2 = "0.10"
hex = "0.4"
rand = "0.8"
data-encoding = "2"
jsonwebtoken = "9"
totp-rs = { version = "5", features = ["otpauth"] }
chrono = "0.4"
