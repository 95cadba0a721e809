[package]
name = "crawl_ingest"
version = "0.1.0"
edition = "2021"
publish = false

[dependencies]
regex = "1"
scraper = "*"
url = "2"
reqwest = { version = "0.12", default-features = false, features = ["json"] }
uuid = { version = "1", features = ["v4", "serde"] }
chrono = { version = "0.4", features = ["serde"] }
serde = { version = "1", features = ["derive"] }
serde_json = "1"
diesel = { version = "2", default-features = false, features = ["uuid", "chrono", "serde_json"] }
diesel-async = { version = "*", features = ["postgres"] }
redis = { version = "*", default-features = false, features = ["aio", "tokio-comp"] }
