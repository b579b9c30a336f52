[package]
name = "ainews_rust"
version = "0.1.0"
edition = "2021"
publish = false

[dependencies]
scraper = "0.19"
url = "2"
reqwest = { version = "0.12", features = ["blocking", "cookies"] }
