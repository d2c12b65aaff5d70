[package]
name = "organixm"
version = "0.1.0"
edition = "2021"
publish = false

[dependencies]
sha2 = "=0.10.9"
zstd = "=0.13.3"
serde = { version = "=1.0.229", features = ["derive"] }
serde_json = "=1.0.151"
anyhow = "=1.0.104"
chrono = "=0.4.45"
clap = { version = "=4.6.7", features = ["derive"] }
slog = "=2.8.2"
sloggers = "=2.2.0"
rust-s3 = { version = "=0.38.0", default-features = false, features = ["sync-rustls-tls", "fail-on-err"] }
