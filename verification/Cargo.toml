[package]
name = "dtp_client"
version = "0.1.0"
edition = "2021"
publish = false

[dependencies]
serde_json = "1"
serde = { version = "1", features = ["derive"] }
clap = { version = "4", features = ["derive"] }
colored = "2"
promptly = "0.3"
spinners = "4"
tungstenite = { version = "0.21", features = ["native-tls"] }
url = "2"
vlc-rs = "0.3"
youtube_dl = "*"
