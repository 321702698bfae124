[package]
name = "neobrowser"
version = "0.1.0"
edition = "2021"
publish = false

[dependencies]
url = "=2.5.8"
httpdate = "=1.0.3"
regex-lite = "=0.1.9"
chrono = "=0.4.45"
html5ever = "=0.39.0"
markup5ever = "=0.39.0"
markup5ever_rcdom = "=0.39.0"
serde = { version = "=1.0.229", features = ["derive"] }
serde_json = "=1.0.154"
dirs = "=7.0.0"
uuid = { version = "=1.29.0", features = ["v4"] }
base64 = "=0.22.1"
rusqlite = { version = "=0.41.1", features = ["bundled"] }
totp-rs = "=6.0.0"
keyring = "=4.2.0"
clap = { version = "=4.6.7", features = ["derive"] }
