[package]
name = "curb_adapter"
version = "0.1.0"
edition = "2021"
publish = false

[dependencies]
serde = { version = "*", features = ["derive"] }
serde_json = "*"
versa_unstable_schema = "*"
axum = "*"
http = "*"

[dev-dependencies]
chrono = "*"
