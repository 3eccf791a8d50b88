[package]
name = "leaderboard"
version = "0.1.0"
edition = "2021"
publish = false

[dependencies]
actix-web = "4"
bson = "2"
chrono = "0.4"
futures = "0.3"
mongodb = "2"
redis = "0.23"
serde = { version = "1", features = ["derive"] }
serde_json = "1"
