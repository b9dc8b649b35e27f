[package]
name = "necron_prism"
version = "0.1.0"
edition = "2021"
publish = false

[dependencies]
regex = "=1.13.1"
http = "=1.5.0"
serde = { version = "=1.0.229", features = ["derive"] }
serde_json = "=1.0.154"
toml = "=0.8.23"
uuid = { version = "=1.29.0", features = ["v3"] }
base64 = "=0.22.1"
mime_guess = "=2.0.5"
valence_protocol = "=0.2.0-alpha.1"
tracing = "=0.1.44"
tracing-subscriber = "=0.3.23"
owo-colors = "=4.4.0"
chrono = { version = "=0.4.45", default-features = false, features = ["clock"] }
lru = "*"
