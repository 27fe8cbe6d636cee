[package]
name = "author"
version = "0.1.0"
edition = "2021"
publish = false

[dependencies]
anyhow = "1"
async-trait = "0.1"
axum = "*"
axum-extra = { version = "*", features = ["cookie-private"] }
cookie = { version = "0.18", features = ["private"] }
futures = "0.3"
parking_lot = "0.12"
thiserror = "1"
tower-layer = "0.3"
tower-service = "0.3"
tower-util = "0.3"
tracing = "0.1"
uuid = { version = "1", features = ["v4"] }
