[package]
name = "vrchat_photo_manager"
version = "0.1.0"
edition = "2021"
publish = false

[dependencies]
anyhow = "1"
chrono = "0.4"
dirs = "6"
image = { version = "0.25", default-features = false, features = ["jpeg", "png", "webp"] }
notify = "8"
reqwest = { version = "0.12", default-features = false, features = ["json"] }
rusqlite = { version = "0.37", features = ["bundled"] }
serde = { version = "1", features = ["derive"] }
serde_json = "1"
tokio = { version = "1", features = ["rt", "rt-multi-thread", "time", "macros"] }
