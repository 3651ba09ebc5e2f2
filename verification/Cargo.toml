[package]
name = "now_playing"
version = "0.1.0"
edition = "2021"
publish = false

[dependencies]
uuid = { version = "1", features = ["v4"] }
dbus = "0.6"
serde = { version = "1", features = ["derive"] }
