[package]
name = "sidecar"
version = "0.1.0"
edition = "2021"
publish = false

[dependencies]
async-trait = "*"
reqwest = { version = "*", default-features = false, features = ["json"] }
serde = { version = "*", features = ["derive"] }
serde_json = "*"
tokio = { version = "*", features = ["full"] }
