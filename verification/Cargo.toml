[package]
name = "oauth_loopback"
version = "0.1.0"
edition = "2021"
publish = false

[dependencies]
keyring = "2"
reqwest = { version = "*", default-features = false, features = ["blocking"] }
webbrowser = "*"
serde_json = "*"

[dev-dependencies]
urlencoding = "*"
