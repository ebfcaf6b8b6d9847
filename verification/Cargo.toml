[package]
name = "tagged_id"
version = "0.1.0"
edition = "2021"
publish = false

[dependencies]
uuid = { version = "1", features = ["v4", "serde"] }
serde = "1"
thiserror = "1"
