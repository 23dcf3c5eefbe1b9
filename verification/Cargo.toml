[package]
name = "okc_gpg"
version = "0.1.0"
edition = "2021"
publish = false

[dependencies]
base64 = "*"
slog = "*"
slog-async = "*"
slog-envlogger = "*"
slog-term = "*"
tokio = { version = "*", features = ["full"] }
