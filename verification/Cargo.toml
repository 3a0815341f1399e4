[package]
name = "apkatalog"
version = "0.1.0"
edition = "2021"
publish = false

[dependencies]
unidecode = "*"
rusqlite = { version = "*", features = ["bundled"] }
serde = { version = "*", features = ["derive"] }
serde_json = "*"
tokio = { version = "*", features = ["rt-multi-thread", "macros", "time"] }
reqwest = { version = "*", default-features = false }
