[package]
name = "webscraper"
version = "0.1.0"
edition = "2021"
publish = false

[dependencies]
anyhow = "1"
http = "*"
scraper = "*"
serde = { version = "1", features = ["derive"] }
serde_json = "1"
spin-sdk = "*"
url = "2"
