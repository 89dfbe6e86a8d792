[package]
name = "rulescript"
version = "0.1.0"
edition = "2021"
publish = false

[dependencies]
datafusion = { version = "50", default-features = false }
serde = { version = "1", features = ["derive"] }
serde_json = "1"
thiserror = "2"
