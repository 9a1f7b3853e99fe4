[package]
name = "chat_types"
version = "0.1.0"
edition = "2021"
publish = false

[dependencies]
derive_builder = "*"
serde = { version = "1", features = ["derive"] }
thiserror = "1"

[dev-dependencies]
serde_json = "1"
