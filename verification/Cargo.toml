[package]
name = "voice_input"
version = "0.1.0"
edition = "2021"
publish = false

[dependencies]
ferrous-opencc = "=0.4.0"
serde = { version = "=1.0.229", features = ["derive"] }
serde_json = "=1.0.151"
reqwest = { version = "=0.12.28", default-features = false, features = ["json", "rustls-tls", "blocking"] }
signal-hook = "=0.4.5"
enigo = "=0.6.1"
