[package]
name = "physjitter"
version = "0.1.0"
edition = "2021"

[dependencies]
hmac = "0.12"
sha2 = "0.10"
subtle = "2"
zeroize = "1"
serde = { version = "1", features = ["derive"] }
