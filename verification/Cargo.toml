[package]
name = "vlive"
version = "0.1.0"
edition = "2021"
publish = false

[dependencies]
async-trait = "0.1"
chrono = "0.4"
regex = "1"
reqwest = { version = "0.12", features = ["json"] }
scraper = "*"
serde = { version = "1", features = ["derive"] }
serde_json = "1"
