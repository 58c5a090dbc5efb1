[package]
name = "inazugle_scraper"
version = "0.1.0"
edition = "2021"
publish = false

[dependencies]
rusqlite = { version = "=0.40.2", features = ["bundled"] }
reqwest = { version = "=0.13.5", default-features = false, features = ["form"] }
tokio = { version = "=1.53.2", features = ["rt-multi-thread"] }
futures = "=0.3.34"
scraper = "=0.27.0"
