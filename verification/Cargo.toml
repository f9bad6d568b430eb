[package]
name = "blive"
version = "0.1.0"
edition = "2021"
publish = false

[dependencies]
rand = "=0.9.5"
leon = "=3.0.3"
chrono = "=0.4.45"
chrono-tz = "0.10"
serde = { version = "=1.0.229", features = ["derive"] }
serde_json = "=1.0.154"
tracing = "=0.1.44"
tracing-subscriber = "=0.3.23"
directories = "=6.0.0"
ffmpeg-sidecar = "=2.7.0"
reqwest = { version = "=0.12.28", default-features = false, features = ["blocking", "rustls-tls"] }
