[package]
name = "this_rs"
version = "0.1.0"
edition = "2021"
publish = false

[dependencies]
uuid = { version = "1", features = ["v4"] }
chrono = "0.4"
graphql-parser = "0.4"
serde = { version = "1", features = ["derive"] }
serde_json = "1"
prost-types = "*"
axum = "0.8"
tokio = { version = "1", features = ["sync", "rt", "macros"] }
