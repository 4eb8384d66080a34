[package]
name = "tw_api"
version = "0.1.0"
edition = "2021"
publish = false

[dependencies]
colored = "2"
csv = "1"
dotenv = "0.15"
oauth1-header = "*"
oauth1-request = { version = "*", features = ["derive"] }
rand = "0.8"
reqwest = { version = "0.11", features = ["blocking", "json"] }
serde = { version = "1", features = ["derive"] }

[dev-dependencies]
serde_json = "1"
