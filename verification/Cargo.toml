[package]
name = "tunewire"
version = "0.1.0"
edition = "2021"
publish = false

[dependencies]
chrono = "0.4"
serde = "1.0"
serde_json = "1.0"
