[package]
name = "row_cache"
version = "0.1.0"
edition = "2021"
publish = false

[dependencies]
moka = { version = "*", features = ["future"] }
send-sync-static = "*"
sqlx = { version = "*", default-features = false, features = ["runtime-tokio"] }
