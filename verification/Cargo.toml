[package]
name = "withgenie_setup"
version = "0.1.0"
edition = "2021"
publish = false

[dependencies]
chrono = "0.4"
regex = "1"
serde = { version = "1", features = ["derive"] }
wait-timeout = "0.2"
