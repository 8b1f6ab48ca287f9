[package]
name = "bloodmessage_mod"
version = "0.1.0"
edition = "2021"
publish = false

[dependencies]
widestring = "1"
serde = { version = "1", features = ["derive"] }
serde_json = "1"
tungstenite = "*"
