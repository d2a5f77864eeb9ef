[package]
name = "aegis"
version = "0.1.0"
edition = "2021"
publish = false

[dependencies]
fuzzy-matcher = "=0.3.7"
serde = { version = "=1.0.229", features = ["derive"] }
serde_json = "=1.0.154"
anyhow = "=1.0.104"
log = "=0.4.35"
rand = "=0.9.5"
base64 = "=0.22.1"
flate2 = "=1.1.10"
strip-ansi-escapes = "0.2"
ansi-to-tui = "7"
