[package]
name = "mission_board"
version = "0.1.0"
edition = "2021"
publish = false

[dependencies]
base64 = "*"
infer = "*"
sha1 = "*"
uuid = { version = "*", features = ["v4"] }
chrono = "*"
