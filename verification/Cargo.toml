[package]
name = "io-timer"
version = "0.1.0"
edition = "2021"
publish = false

[dependencies]
io-stream = "*"
log = "*"
memchr = "*"
serde = { version = "1", features = ["derive"] }
serde_json = "1"

[dev-dependencies]
mock_instant = "*"
