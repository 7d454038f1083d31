[package]
name = "tenki_core"
version = "0.1.0"
edition = "2021"
publish = false

[dependencies]
chrono = "0.4"
itertools = "*"
regex = "1"
reqwest = { version = "0.12", default-features = false, features = ["blocking", "rustls-tls", "charset"] }
scraper = "*"
selectors = "*"
