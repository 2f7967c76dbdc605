[package]
name = "bili_sync"
version = "0.1.0"
edition = "2021"
publish = false

[dependencies]
anyhow = "1"
async-trait = "0.1"
axum = "0.8"
chrono = "0.4"
dunce = "1"
reqwest = { version = "0.12", default-features = false, features = ["json", "stream"] }
sea-orm = { version = "1", default-features = false, features = ["macros", "with-chrono", "with-json"] }
sea-orm-migration = { version = "1", default-features = false }
serde = { version = "1", features = ["derive"] }
serde_json = "1"
tokio = { version = "1", features = ["fs", "sync", "time"] }
tokio-util = { version = "0.7", features = ["io"] }
