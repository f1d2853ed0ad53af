[package]
name = "betweenworlds_api"
version = "0.1.0"
edition = "2021"
publish = false

[dependencies]
serde = { version = "1", features = ["derive"] }
serde_json = "1"
reqwest = { version = "*", default-features = false, features = ["blocking"] }
chrono = "0.4"
clokwerk = "*"
num-format = "0.4"
