[package]
name = "feed_store"
version = "0.1.0"
edition = "2021"
publish = false

[dependencies]
chrono = { version = "*", features = ["serde"] }
rusqlite = { version = "*", features = ["bundled", "chrono"] }
sea-query = { version = "*", features = ["with-chrono"] }
sea-query-rusqlite = { version = "*", features = ["with-chrono"] }
serde = { version = "*", features = ["derive"] }
