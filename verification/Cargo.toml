[package]
name = "nix_store_mesh"
version = "0.1.0"
edition = "2021"
publish = false

[dependencies]
axum = "0.8"
once_cell = "1"
reqwest = { version = "0.12", default-features = false, features = ["stream"] }
serde = { version = "1", features = ["derive"] }
serde_json = "1"
tokio = { version = "1", features = ["full"] }
tokio-util = { version = "0.7", features = ["io"] }
tower = { version = "0.5", features = ["util"] }
tower-http = { version = "0.6", features = ["compression-full"] }
