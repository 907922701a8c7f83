[package]
name = "multiplayer"
version = "0.1.0"
edition = "2021"
publish = false

[dependencies]
uuid = { version = "1", features = ["v4", "serde"] }
serde = { version = "1", features = ["derive"] }
serde_json = "1"
chrono = { version = "0.4", default-features = false, features = ["now"] }
anyhow = "1"
network-interface = "2"

[dev-dependencies]
bevy = { version = "0.15", default-features = false }
