[package]
name = "async-lsp"
version = "0.2.0"
edition = "2021"
publish = false

[dependencies]
futures = "0.3"
lsp-types = "0.95"
pin-project-lite = "0.2"
serde = { version = "1", features = ["derive"] }
serde_json = "1"
thiserror = "1"
tower-layer = "0.3"
tower-service = "0.3"
