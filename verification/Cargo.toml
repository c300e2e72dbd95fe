[package]
name = "dtiw385"
version = "0.1.2"
edition = "2021"
publish = false

[dependencies]
reqwest = { version = "0.12", default-features = false, features = ["json"] }
serde = { version = "1", features = ["derive"] }
thiserror = "2"
tokio = { version = "1", features = ["rt-multi-thread", "macros", "sync", "net", "time"] }
tracing = "0.1"
axum = "0.8"

[dev-dependencies]
serde_json = "1"
