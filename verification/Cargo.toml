[package]
name = "sloggers"
version = "0.1.0"
edition = "2021"
publish = false

[dependencies]
serde = { version = "=1.0.229", features = ["derive"] }
slog = "=2.8.2"
slog-async = "2"
slog-syslog = "=0.13.0"
syslog = "=5.0.0"
trackable = "=1.3.0"
