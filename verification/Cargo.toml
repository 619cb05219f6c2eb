[package]
name = "opcua_server"
version = "0.1.0"
edition = "2021"
publish = false

[dependencies]
uuid = { version = "1", features = ["v4"] }
serde = { version = "1", features = ["derive"] }
base64 = "0.22"
rand = "0.8"
chrono = { version = "0.4", default-features = false, features = ["std", "now"] }
