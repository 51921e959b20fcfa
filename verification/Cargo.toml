[package]
name = "songrec"
version = "0.1.0"
edition = "2021"
publish = false

[dependencies]
regex = "1"
chrono = "0.4"
percent-encoding = "2"
serde = { version = "1", features = ["derive"] }
serde_json = "1"
csv = "1"
async-channel = "2"
log = "0.4"
uuid = { version = "1", features = ["v4"] }
rand = "0.9"
tokio = { version = "1", features = ["rt-multi-thread"] }
reqwest = { version = "0.12", default-features = false, features = ["rustls-tls"] }
gettext-rs = { version = "0.7", features = ["gettext-system"] }
webbrowser = "1"
image = { version = "0.25", default-features = false, features = ["png", "jpeg"] }
cpal = "0.15"
pulsectl-rs = "0.3"
