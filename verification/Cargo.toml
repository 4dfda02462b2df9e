[package]
name = "tondar_dm"
version = "0.1.0"
edition = "2021"
publish = false

[dependencies]
url = "2"
content_disposition = "0.4"
percent-encoding = "2"
reqwest = { version = "0.12", default-features = false, features = ["rustls-tls", "gzip", "brotli", "zstd", "stream"] }
tokio = { version = "1", features = ["rt-multi-thread", "macros", "fs", "io-util"] }
futures-util = "0.3"
indicatif = "0.17"
clap = { version = "4", features = ["derive"] }
serde = { version = "1", features = ["derive"] }
serde_json = "1"
toml = "0.8"
