[package]
name = "ilias"
version = "0.1.0"
edition = "2021"
publish = false

[dependencies]
anyhow = "=1.0.104"
chrono = "=0.4.45"
reqwest = { version = "=0.12.28", default-features = false, features = ["blocking", "multipart", "rustls-tls"] }
scraper = "=0.29.0"
