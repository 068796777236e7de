[package]
name = "food_agent"
version = "0.1.0"
edition = "2021"
publish = false

[dependencies]
chrono = "0.4"
mysql = "*"
serde = { version = "1", features = ["derive"] }
serde_json = "1"
dotenvy = "*"
google-calendar3 = "5"
hyper = "0.14"
hyper-rustls = "0.24"
tokio = { version = "1", features = ["rt-multi-thread", "macros"] }
