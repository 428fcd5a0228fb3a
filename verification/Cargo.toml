[package]
name = "secret_santa"
version = "0.1.0"
edition = "2021"
publish = false

[dependencies]
md5 = "0.7"
rand = "0.8"
serde = { version = "1", features = ["derive"] }
serde_json = "1"
sqlx = { version = "0.7", default-features = false, features = ["runtime-async-std", "sqlite"] }
tide = { version = "0.16", default-features = false, features = ["h1-server", "logger"] }
async-std = { version = "1", features = ["attributes"] }
dotenvy = "0.15"
