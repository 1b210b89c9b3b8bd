[package]
name = "audia"
version = "0.1.0"
edition = "2021"
publish = false

[dependencies]
base64 = "=0.22.1"
dirs = "=6.0.0"
fuzzy-matcher = "=0.3.7"

librespot-core = "0.8"
librespot-playback = { version = "0.8", default-features = false }
rand = "=0.8.8"
reqwest = { version = "=0.12.28", default-features = false, features = ["json", "rustls-tls"] }
ron = "=0.8.1"
serde = { version = "=1.0.229", features = ["derive"] }
serde_json = "=1.0.154"
sha2 = "=0.10.9"
tokio = { version = "=1.54.1", features = ["rt-multi-thread"] }
urlencoding = "=2.1.3"
webbrowser = "=1.2.6"
