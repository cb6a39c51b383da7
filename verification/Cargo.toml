[package]
name = "flag_kit"
version = "0.2.0"
edition = "2021"
publish = false

[dependencies]
dashmap = "6"
chrono = { version = "0.4", default-features = false, features = ["clock", "std"] }
serde = { version = "1", features = ["derive"] }
serde_json = "1"
thiserror = "1"
async-trait = "0.1"
tokio = { version = "1", features = ["sync", "rt"] }
rusqlite = { version = "0.32", features = ["bundled"] }

[dev-dependencies]
regex = "1"
