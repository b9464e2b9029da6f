[package]
name = "vote_session"
version = "0.1.0"
edition = "2021"
publish = false

[dependencies]
hex = "0.4"
parity-scale-codec = "3"
serde = { version = "1", features = ["derive"] }
serde_json = "1"
