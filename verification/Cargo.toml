[package]
name = "problem_details"
version = "0.1.0"
edition = "2021"
publish = false

[dependencies]
axum-core = "0.5"
bytes = "1"
http = "1"
serde = { version = "1", features = ["derive"] }
serde_json = "1"
